//! Transcript documents: clock times of cues and the SRT and WebVTT texts.

use vstd::prelude::*;
use vstd::string::StringExecFns;
use crate::text::{decimal, zero_padded, push_decimal, push_zero_padded};
use vstd::arithmetic::div_mod::lemma_fundamental_div_mod_converse;

verus! {

broadcast use vstd::string::group_string_axioms;

/// A stretch of speech with its text, timed in milliseconds.
#[derive(Debug, Clone)]
pub struct Segment {
    pub start_ms: u64,
    pub end_ms: u64,
    pub text: String,
}

/// A clock time `HH:MM:SS` then `sep` then milliseconds, each part zero-padded
/// (hours to at least two digits).
pub open spec fn clock_text(ms: u64, sep: char) -> Seq<char> {
    zero_padded((ms / 3600000) as nat, 2) + seq![':'] + zero_padded(((ms % 3600000) / 60000) as nat, 2)
        + seq![':'] + zero_padded(((ms % 60000) / 1000) as nat, 2) + seq![sep]
        + zero_padded((ms % 1000) as nat, 3)
}

/// A clock time spells out the instant it was made from: whenever `ms` is `h`
/// hours, `m` minutes, `s` seconds and `f` milliseconds, with the minutes and
/// seconds under sixty and the milliseconds under a thousand, the text is `h`
/// and `m` and `s` on at least two digits, separated by colons, then `sep` and
/// `f` on three digits.
pub proof fn clock_text_spells_out(ms: u64, sep: char, h: nat, m: nat, s: nat, f: nat)
    requires
        m < 60,
        s < 60,
        f < 1000,
        h * 3600000 + m * 60000 + s * 1000 + f == ms,
    ensures
        clock_text(ms, sep) == zero_padded(h, 2) + seq![':'] + zero_padded(m, 2) + seq![':']
            + zero_padded(s, 2) + seq![sep] + zero_padded(f, 3),
{
    let x = ms as int;
    let sf = s * 1000 + f;
    let msf = m * 60000 + sf;
    assert(0 <= sf < 60000) by (nonlinear_arith)
        requires s < 60, f < 1000, sf == s * 1000 + f;
    assert(0 <= msf < 3600000) by (nonlinear_arith)
        requires m < 60, 0 <= sf < 60000, msf == m * 60000 + sf;
    lemma_fundamental_div_mod_converse(x, 3600000, h as int, msf as int);
    lemma_fundamental_div_mod_converse(msf as int, 60000, m as int, sf as int);
    assert(x == (h * 60 + m) * 60000 + sf) by (nonlinear_arith)
        requires x == h * 3600000 + m * 60000 + s * 1000 + f, sf == s * 1000 + f;
    lemma_fundamental_div_mod_converse(x, 60000, (h * 60 + m) as int, sf as int);
    lemma_fundamental_div_mod_converse(sf as int, 1000, s as int, f as int);
    assert(x == (h * 3600 + m * 60 + s) * 1000 + f) by (nonlinear_arith)
        requires x == h * 3600000 + m * 60000 + s * 1000 + f;
    lemma_fundamental_div_mod_converse(x, 1000, (h * 3600 + m * 60 + s) as int, f as int);
    assert((ms / 3600000) as nat == h);
    assert(((ms % 3600000) / 60000) as nat == m);
    assert(((ms % 60000) / 1000) as nat == s);
    assert((ms % 1000) as nat == f);
}

/// Appends a clock time with the given separator before the milliseconds.
pub fn push_clock(out: &mut String, ms: u64, comma: bool)
    ensures
        final(out)@ == old(out)@ + clock_text(ms, if comma { ',' } else { '.' }),
{
    proof {
        reveal_strlit(":");
        reveal_strlit(",");
        reveal_strlit(".");
    }
    push_zero_padded(out, ms / 3600000, 2);
    out.append(":");
    push_zero_padded(out, (ms % 3600000) / 60000, 2);
    out.append(":");
    push_zero_padded(out, (ms % 60000) / 1000, 2);
    if comma {
        out.append(",");
    } else {
        out.append(".");
    }
    push_zero_padded(out, ms % 1000, 3);
    assert(final(out)@ =~= old(out)@ + clock_text(ms, if comma { ',' } else { '.' }));
}

/// `start --> end` on a line of its own.
pub open spec fn cue_timing(s: Segment, sep: char) -> Seq<char> {
    clock_text(s.start_ms, sep) + " --> "@ + clock_text(s.end_ms, sep) + seq!['\n']
}

/// The SRT cue numbered `n`.
pub open spec fn srt_cue(n: nat, s: Segment) -> Seq<char> {
    decimal(n) + seq!['\n'] + cue_timing(s, ',') + s.text@ + seq!['\n', '\n']
}

/// The SRT document of the segments, numbered from one.
pub open spec fn srt_document(segs: Seq<Segment>) -> Seq<char>
    decreases segs.len(),
{
    if segs.len() == 0 {
        Seq::empty()
    } else {
        srt_document(segs.drop_last()) + srt_cue(segs.len(), segs.last())
    }
}

/// The WebVTT cues of the segments.
pub open spec fn vtt_cues(segs: Seq<Segment>) -> Seq<char>
    decreases segs.len(),
{
    if segs.len() == 0 {
        Seq::empty()
    } else {
        vtt_cues(segs.drop_last()) + cue_timing(segs.last(), '.') + segs.last().text@ + seq!['\n', '\n']
    }
}

/// The WebVTT document of the segments.
pub open spec fn vtt_document(segs: Seq<Segment>) -> Seq<char> {
    "WEBVTT\n\n"@ + vtt_cues(segs)
}

/// An SRT transcript grows cue by cue: the document of no segments is empty,
/// and adding a segment adds, at the end, the new number of segments, a
/// newline, the start and end clock times (a comma before the milliseconds)
/// joined by ` --> `, a newline, the segment's text and a blank line.
pub proof fn srt_document_grows_by_cues(segs: Seq<Segment>, s: Segment)
    ensures
        srt_document(Seq::empty()) == Seq::<char>::empty(),
        srt_document(segs.push(s)) == srt_document(segs) + decimal(segs.len() + 1) + "\n"@
            + clock_text(s.start_ms, ',') + " --> "@ + clock_text(s.end_ms, ',') + "\n"@ + s.text@ + "\n\n"@,
{
    reveal_strlit("\n");
    reveal_strlit(" --> ");
    reveal_strlit("\n\n");
    assert(segs.push(s).drop_last() =~= segs);
    assert(srt_document(segs.push(s)) =~= srt_document(segs) + decimal(segs.len() + 1) + "\n"@
        + clock_text(s.start_ms, ',') + " --> "@ + clock_text(s.end_ms, ',') + "\n"@ + s.text@ + "\n\n"@);
}

/// A WebVTT transcript grows cue by cue: the document of no segments is the
/// `WEBVTT` header line and a blank line, and adding a segment adds, at the
/// end, its start and end clock times (a dot before the milliseconds) joined by
/// ` --> `, a newline, the segment's text and a blank line.
pub proof fn vtt_document_grows_by_cues(segs: Seq<Segment>, s: Segment)
    ensures
        vtt_document(Seq::empty()) == "WEBVTT\n\n"@,
        vtt_document(segs.push(s)) == vtt_document(segs) + clock_text(s.start_ms, '.') + " --> "@
            + clock_text(s.end_ms, '.') + "\n"@ + s.text@ + "\n\n"@,
{
    reveal_strlit("\n");
    reveal_strlit(" --> ");
    reveal_strlit("\n\n");
    reveal_strlit("WEBVTT\n\n");
    assert(vtt_document(Seq::empty()) =~= "WEBVTT\n\n"@);
    assert(segs.push(s).drop_last() =~= segs);
    assert(vtt_document(segs.push(s)) =~= vtt_document(segs) + clock_text(s.start_ms, '.') + " --> "@
        + clock_text(s.end_ms, '.') + "\n"@ + s.text@ + "\n\n"@);
}

fn push_timing(out: &mut String, s: &Segment, comma: bool)
    ensures
        final(out)@ == old(out)@ + cue_timing(*s, if comma { ',' } else { '.' }),
{
    proof {
        reveal_strlit(" --> ");
        reveal_strlit("\n");
    }
    push_clock(out, s.start_ms, comma);
    out.append(" --> ");
    push_clock(out, s.end_ms, comma);
    out.append("\n");
    assert(final(out)@ =~= old(out)@ + cue_timing(*s, if comma { ',' } else { '.' }));
}

/// The SRT document of the segments.
pub fn render_srt(segs: &Vec<Segment>) -> (r: String)
    ensures
        r@ == srt_document(segs@),
{
    proof {
        reveal_strlit("\n");
        reveal_strlit("\n\n");
        assert("\n"@ =~= seq!['\n']);
        assert("\n\n"@ =~= seq!['\n', '\n']);
    }
    let mut out = String::new();
    let mut i: usize = 0;
    while i < segs.len()
        invariant
            i <= segs@.len(),
            out@ == srt_document(segs@.subrange(0, i as int)),
        decreases segs@.len() - i,
    {
        proof {
            reveal_strlit("\n");
            reveal_strlit("\n\n");
            assert("\n"@ =~= seq!['\n']);
            assert("\n\n"@ =~= seq!['\n', '\n']);
        }
        let ghost before = out@;
        push_decimal(&mut out, (i as u64) + 1);
        out.append("\n");
        push_timing(&mut out, &segs[i], true);
        out.append(segs[i].text.as_str());
        out.append("\n\n");
        proof {
            let sub = segs@.subrange(0, i + 1);
            assert(sub.drop_last() =~= segs@.subrange(0, i as int));
            assert(sub.last() == segs@[i as int]);
            assert(((i as u64) + 1) as nat == (i + 1) as nat);
            assert(out@ =~= before + srt_cue((i + 1) as nat, segs@[i as int]));
        }
        i = i + 1;
    }
    assert(segs@.subrange(0, segs@.len() as int) =~= segs@);
    out
}

/// The WebVTT document of the segments.
pub fn render_vtt(segs: &Vec<Segment>) -> (r: String)
    ensures
        r@ == vtt_document(segs@),
{
    proof {
        reveal_strlit("\n\n");
        reveal_strlit("WEBVTT\n\n");
        assert("\n\n"@ =~= seq!['\n', '\n']);
    }
    let mut out = String::from_str("WEBVTT\n\n");
    let mut i: usize = 0;
    while i < segs.len()
        invariant
            i <= segs@.len(),
            out@ == "WEBVTT\n\n"@ + vtt_cues(segs@.subrange(0, i as int)),
        decreases segs@.len() - i,
    {
        proof {
            reveal_strlit("\n");
            reveal_strlit("\n\n");
            assert("\n"@ =~= seq!['\n']);
            assert("\n\n"@ =~= seq!['\n', '\n']);
        }
        let ghost before = out@;
        let seg = &segs[i];
        push_timing(&mut out, seg, false);
        assert(out@ == before + cue_timing(segs@[i as int], '.'));
        let ghost mid = out@;
        out.append(seg.text.as_str());
        assert(out@ == mid + segs@[i as int].text@);
        let ghost mid2 = out@;
        out.append("\n\n");
        assert(out@ == mid2 + seq!['\n', '\n']);
        proof {
            let sub = segs@.subrange(0, i + 1);
            assert(sub.drop_last() =~= segs@.subrange(0, i as int));
            assert(sub.last() == segs@[i as int]);
            assert(out@ =~= before + cue_timing(segs@[i as int], '.') + segs@[i as int].text@ + seq!['\n', '\n']);
        }
        i = i + 1;
    }
    assert(segs@.subrange(0, segs@.len() as int) =~= segs@);
    out
}

} // verus!
