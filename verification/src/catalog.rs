//! Fixed catalogues: sound-effect presets and their categories, and the
//! languages translation supports.

use vstd::prelude::*;
use vstd::string::StringExecFns;
use crate::sound_effect::SoundEffectServiceImpl;
use crate::translation::TranslationServiceImpl;

verus! {

broadcast use vstd::string::group_string_axioms;

/// A ready-made sound-effect description.
#[derive(Debug, Clone)]
pub struct SoundEffectPreset {
    pub preset_id: String,
    pub name: String,
    pub description: String,
    pub category: String,
    pub tags: Vec<String>,
    pub default_duration_ms: u64,
    pub default_style: Option<String>,
}

/// The presets on offer.
#[derive(Debug, Clone)]
pub struct SoundEffectPresetsResponse {
    pub presets: Vec<SoundEffectPreset>,
}

/// A group of presets.
#[derive(Debug, Clone)]
pub struct SoundEffectCategory {
    pub category_id: String,
    pub name: String,
    pub description: String,
    pub preset_count: u32,
}

/// The categories on offer.
#[derive(Debug, Clone)]
pub struct SoundEffectCategoriesResponse {
    pub categories: Vec<SoundEffectCategory>,
}

/// A language translation supports.
#[derive(Debug, Clone)]
pub struct SupportedLanguage {
    pub code: String,
    pub name: String,
    pub native_name: String,
}

/// The languages translation supports.
#[derive(Debug, Clone)]
pub struct SupportedLanguagesResponse {
    pub languages: Vec<SupportedLanguage>,
}

/// A preset as plain text: id, name, description, category, tags, default
/// duration and default style.
pub type PresetText = (Seq<char>, Seq<char>, Seq<char>, Seq<char>, Seq<Seq<char>>, u64, Seq<char>);

/// The text of a preset.
pub open spec fn preset_text(p: SoundEffectPreset) -> PresetText {
    (p.preset_id@, p.name@, p.description@, p.category@, p.tags@.map_values(|t: String| t@),
        p.default_duration_ms, match p.default_style { Some(s) => s@, None => Seq::empty() })
}

/// The presets on offer, in order.
pub open spec fn preset_table() -> Seq<PresetText> {
    seq![
        ("rain"@, "Rain"@, "Gentle rain falling on a window"@, "nature"@, seq!["rain"@, "weather"@, "ambient"@], 5000u64, "gentle"@),
        ("thunder"@, "Thunder"@, "Thunder rumbling in the distance"@, "nature"@, seq!["thunder"@, "storm"@, "weather"@], 3000u64, "dramatic"@),
        ("ocean"@, "Ocean Waves"@, "Ocean waves crashing on the shore"@, "nature"@, seq!["ocean"@, "waves"@, "beach"@], 8000u64, "calm"@),
        ("footsteps"@, "Footsteps"@, "Footsteps walking on a hard surface"@, "human"@, seq!["footsteps"@, "walking"@, "human"@], 2000u64, "normal"@),
        ("door"@, "Door Opening"@, "Door opening and closing"@, "household"@, seq!["door"@, "opening"@, "household"@], 1500u64, "normal"@),
        ("click"@, "Mouse Click"@, "Mouse button click sound"@, "ui"@, seq!["click"@, "mouse"@, "ui"@], 100u64, "sharp"@),
        ("notification"@, "Notification"@, "Notification bell sound"@, "ui"@, seq!["notification"@, "bell"@, "alert"@], 500u64, "pleasant"@),
        ("explosion"@, "Explosion"@, "Large explosion sound effect"@, "action"@, seq!["explosion"@, "boom"@, "action"@], 2000u64, "dramatic"@),
    ]
}

/// The categories on offer, in order: id, name, description and preset count.
pub open spec fn category_table() -> Seq<(Seq<char>, Seq<char>, Seq<char>, u32)> {
    seq![
        ("nature"@, "Nature"@, "Natural environment sounds"@, 3u32),
        ("human"@, "Human"@, "Human-made sounds"@, 1u32),
        ("household"@, "Household"@, "Household item sounds"@, 1u32),
        ("ui"@, "UI"@, "User interface sounds"@, 2u32),
        ("action"@, "Action"@, "Action and adventure sounds"@, 1u32),
    ]
}

/// The supported languages, in order: code, English name and native name.
pub open spec fn language_table() -> Seq<(Seq<char>, Seq<char>, Seq<char>)> {
    seq![
        ("en"@, "English"@, "English"@),
        ("zh"@, "Chinese"@, "中文"@),
        ("ja"@, "Japanese"@, "日本語"@),
        ("ko"@, "Korean"@, "한국어"@),
        ("es"@, "Spanish"@, "Español"@),
        ("fr"@, "French"@, "Français"@),
        ("de"@, "German"@, "Deutsch"@),
        ("it"@, "Italian"@, "Italiano"@),
        ("pt"@, "Portuguese"@, "Português"@),
        ("ru"@, "Russian"@, "Русский"@),
        ("ar"@, "Arabic"@, "العربية"@),
        ("hi"@, "Hindi"@, "हिन्दी"@),
    ]
}

/// How many presets of the table belong to category `c`.
pub open spec fn presets_in_category(table: Seq<PresetText>, c: Seq<char>) -> nat
    decreases table.len(),
{
    if table.len() == 0 {
        0
    } else {
        presets_in_category(table.drop_last(), c) + if table.last().3 == c { 1nat } else { 0nat }
    }
}

/// Each category reports as many presets as the preset list holds of it, and
/// every preset belongs to a listed category.
pub proof fn category_counts_match_presets()
    ensures
        forall|i: int| 0 <= i < category_table().len()
            ==> presets_in_category(preset_table(), #[trigger] category_table()[i].0) == category_table()[i].3,
        forall|j: int| 0 <= j < preset_table().len()
            ==> exists|i: int| 0 <= i < category_table().len() && category_table()[i].0 == (#[trigger] preset_table()[j]).3,
{
    reveal_strlit("nature");
    reveal_strlit("human");
    reveal_strlit("household");
    reveal_strlit("ui");
    reveal_strlit("action");
    assert("nature"@.len() != "human"@.len());
    assert("nature"@.len() != "household"@.len());
    assert("nature"@.len() != "ui"@.len());
    assert("nature"@[0] != "action"@[0]);
    assert("human"@.len() != "household"@.len());
    assert("human"@.len() != "ui"@.len());
    assert("human"@.len() != "action"@.len());
    assert("household"@.len() != "ui"@.len());
    assert("household"@.len() != "action"@.len());
    assert("ui"@.len() != "action"@.len());
    let t = preset_table();
    let cs = category_table();
    reveal_with_fuel(presets_in_category, 9);
    assert(cs[0].0 == "nature"@);
    assert(presets_in_category(t, "nature"@) == 3);
    assert(presets_in_category(t, "human"@) == 1);
    assert(presets_in_category(t, "household"@) == 1);
    assert(presets_in_category(t, "ui"@) == 2);
    assert(presets_in_category(t, "action"@) == 1);
    assert forall|j: int| 0 <= j < t.len()
        implies exists|i: int| 0 <= i < cs.len() && cs[i].0 == (#[trigger] t[j]).3 by {
        if t[j].3 == "nature"@ { assert(cs[0].0 == t[j].3); }
        else if t[j].3 == "human"@ { assert(cs[1].0 == t[j].3); }
        else if t[j].3 == "household"@ { assert(cs[2].0 == t[j].3); }
        else if t[j].3 == "ui"@ { assert(cs[3].0 == t[j].3); }
        else { assert(cs[4].0 == t[j].3); }
    }
}

/// What the preset with id `id` is: its name, description, category, tags,
/// default duration and default style.
pub open spec fn preset_by_id(id: Seq<char>) -> (Seq<char>, Seq<char>, Seq<char>, Seq<Seq<char>>, u64, Seq<char>) {
    if id == "rain"@ {
        ("Rain"@, "Gentle rain falling on a window"@, "nature"@, seq!["rain"@, "weather"@, "ambient"@], 5000u64, "gentle"@)
    } else if id == "thunder"@ {
        ("Thunder"@, "Thunder rumbling in the distance"@, "nature"@, seq!["thunder"@, "storm"@, "weather"@], 3000u64, "dramatic"@)
    } else if id == "ocean"@ {
        ("Ocean Waves"@, "Ocean waves crashing on the shore"@, "nature"@, seq!["ocean"@, "waves"@, "beach"@], 8000u64, "calm"@)
    } else if id == "footsteps"@ {
        ("Footsteps"@, "Footsteps walking on a hard surface"@, "human"@, seq!["footsteps"@, "walking"@, "human"@], 2000u64, "normal"@)
    } else if id == "door"@ {
        ("Door Opening"@, "Door opening and closing"@, "household"@, seq!["door"@, "opening"@, "household"@], 1500u64, "normal"@)
    } else if id == "click"@ {
        ("Mouse Click"@, "Mouse button click sound"@, "ui"@, seq!["click"@, "mouse"@, "ui"@], 100u64, "sharp"@)
    } else if id == "notification"@ {
        ("Notification"@, "Notification bell sound"@, "ui"@, seq!["notification"@, "bell"@, "alert"@], 500u64, "pleasant"@)
    } else if id == "explosion"@ {
        ("Explosion"@, "Large explosion sound effect"@, "action"@, seq!["explosion"@, "boom"@, "action"@], 2000u64, "dramatic"@)
    } else {
        (Seq::empty(), Seq::empty(), Seq::empty(), Seq::empty(), 0, Seq::empty())
    }
}

/// Every preset is listed under its own id with its own name, description,
/// category, tags, default duration and default style (footsteps are human,
/// a door household, and so on), and no two presets share an id.
pub proof fn presets_are_listed_under_their_ids()
    ensures
        forall|j: int| 0 <= j < preset_table().len() ==> ({
            let p = #[trigger] preset_table()[j];
            preset_by_id(p.0) == (p.1, p.2, p.3, p.4, p.5, p.6)
        }),
        forall|i: int, j: int| 0 <= i < j < preset_table().len()
            ==> (#[trigger] preset_table()[i]).0 != (#[trigger] preset_table()[j]).0,
{
    reveal_strlit("rain");
    reveal_strlit("thunder");
    reveal_strlit("ocean");
    reveal_strlit("footsteps");
    reveal_strlit("door");
    reveal_strlit("click");
    reveal_strlit("notification");
    reveal_strlit("explosion");
    assert("rain"@.len() != "thunder"@.len());
    assert("rain"@.len() != "ocean"@.len());
    assert("rain"@.len() != "footsteps"@.len());
    assert("rain"@[0] != "door"@[0]);
    assert("rain"@.len() != "click"@.len());
    assert("rain"@.len() != "notification"@.len());
    assert("rain"@.len() != "explosion"@.len());
    assert("thunder"@.len() != "ocean"@.len());
    assert("thunder"@.len() != "footsteps"@.len());
    assert("thunder"@.len() != "door"@.len());
    assert("thunder"@.len() != "click"@.len());
    assert("thunder"@.len() != "notification"@.len());
    assert("thunder"@.len() != "explosion"@.len());
    assert("ocean"@.len() != "footsteps"@.len());
    assert("ocean"@.len() != "door"@.len());
    assert("ocean"@[0] != "click"@[0]);
    assert("ocean"@.len() != "notification"@.len());
    assert("ocean"@.len() != "explosion"@.len());
    assert("footsteps"@.len() != "door"@.len());
    assert("footsteps"@.len() != "click"@.len());
    assert("footsteps"@.len() != "notification"@.len());
    assert("footsteps"@[0] != "explosion"@[0]);
    assert("door"@.len() != "click"@.len());
    assert("door"@.len() != "notification"@.len());
    assert("door"@.len() != "explosion"@.len());
    assert("click"@.len() != "notification"@.len());
    assert("click"@.len() != "explosion"@.len());
    assert("notification"@.len() != "explosion"@.len());
    let t = preset_table();
    assert(preset_by_id(t[0].0) == (t[0].1, t[0].2, t[0].3, t[0].4, t[0].5, t[0].6));
    assert(preset_by_id(t[1].0) == (t[1].1, t[1].2, t[1].3, t[1].4, t[1].5, t[1].6));
    assert(preset_by_id(t[2].0) == (t[2].1, t[2].2, t[2].3, t[2].4, t[2].5, t[2].6));
    assert(preset_by_id(t[3].0) == (t[3].1, t[3].2, t[3].3, t[3].4, t[3].5, t[3].6));
    assert(preset_by_id(t[4].0) == (t[4].1, t[4].2, t[4].3, t[4].4, t[4].5, t[4].6));
    assert(preset_by_id(t[5].0) == (t[5].1, t[5].2, t[5].3, t[5].4, t[5].5, t[5].6));
    assert(preset_by_id(t[6].0) == (t[6].1, t[6].2, t[6].3, t[6].4, t[6].5, t[6].6));
    assert(preset_by_id(t[7].0) == (t[7].1, t[7].2, t[7].3, t[7].4, t[7].5, t[7].6));
    assert forall|i: int, j: int| 0 <= i < j < t.len() implies (#[trigger] t[i]).0 != (#[trigger] t[j]).0 by {
    }
}

/// The name and description of the preset category with id `id`.
pub open spec fn category_by_id(id: Seq<char>) -> (Seq<char>, Seq<char>) {
    if id == "nature"@ {
        ("Nature"@, "Natural environment sounds"@)
    } else if id == "human"@ {
        ("Human"@, "Human-made sounds"@)
    } else if id == "household"@ {
        ("Household"@, "Household item sounds"@)
    } else if id == "ui"@ {
        ("UI"@, "User interface sounds"@)
    } else if id == "action"@ {
        ("Action"@, "Action and adventure sounds"@)
    } else {
        (Seq::empty(), Seq::empty())
    }
}

/// Every category is listed under its own id with its own name and
/// description, and no two categories share an id.
pub proof fn categories_are_listed_under_their_ids()
    ensures
        forall|i: int| 0 <= i < category_table().len() ==> ({
            let c = #[trigger] category_table()[i];
            category_by_id(c.0) == (c.1, c.2)
        }),
        forall|i: int, j: int| 0 <= i < j < category_table().len()
            ==> (#[trigger] category_table()[i]).0 != (#[trigger] category_table()[j]).0,
{
    reveal_strlit("nature");
    reveal_strlit("human");
    reveal_strlit("household");
    reveal_strlit("ui");
    reveal_strlit("action");
    assert("nature"@.len() != "human"@.len());
    assert("nature"@.len() != "household"@.len());
    assert("nature"@.len() != "ui"@.len());
    assert("nature"@[0] != "action"@[0]);
    assert("human"@.len() != "household"@.len());
    assert("human"@.len() != "ui"@.len());
    assert("human"@.len() != "action"@.len());
    assert("household"@.len() != "ui"@.len());
    assert("household"@.len() != "action"@.len());
    assert("ui"@.len() != "action"@.len());
    let t = category_table();
    assert(category_by_id(t[0].0) == (t[0].1, t[0].2));
    assert(category_by_id(t[1].0) == (t[1].1, t[1].2));
    assert(category_by_id(t[2].0) == (t[2].1, t[2].2));
    assert(category_by_id(t[3].0) == (t[3].1, t[3].2));
    assert(category_by_id(t[4].0) == (t[4].1, t[4].2));
    assert forall|i: int, j: int| 0 <= i < j < t.len() implies (#[trigger] t[i]).0 != (#[trigger] t[j]).0 by {
    }
}

/// The English and native names of the language with code `code`.
pub open spec fn language_names(code: Seq<char>) -> (Seq<char>, Seq<char>) {
    if code == "en"@ {
        ("English"@, "English"@)
    } else if code == "zh"@ {
        ("Chinese"@, "中文"@)
    } else if code == "ja"@ {
        ("Japanese"@, "日本語"@)
    } else if code == "ko"@ {
        ("Korean"@, "한국어"@)
    } else if code == "es"@ {
        ("Spanish"@, "Español"@)
    } else if code == "fr"@ {
        ("French"@, "Français"@)
    } else if code == "de"@ {
        ("German"@, "Deutsch"@)
    } else if code == "it"@ {
        ("Italian"@, "Italiano"@)
    } else if code == "pt"@ {
        ("Portuguese"@, "Português"@)
    } else if code == "ru"@ {
        ("Russian"@, "Русский"@)
    } else if code == "ar"@ {
        ("Arabic"@, "العربية"@)
    } else if code == "hi"@ {
        ("Hindi"@, "हिन्दी"@)
    } else {
        (Seq::empty(), Seq::empty())
    }
}

/// Every supported language is listed under its own code with its own English
/// and native names, and no code is listed twice.
pub proof fn languages_are_listed_under_their_codes()
    ensures
        forall|i: int| 0 <= i < language_table().len()
            ==> language_names((#[trigger] language_table()[i]).0) == (language_table()[i].1, language_table()[i].2),
        forall|i: int, j: int| 0 <= i < j < language_table().len()
            ==> (#[trigger] language_table()[i]).0 != (#[trigger] language_table()[j]).0,
{
    reveal_strlit("en");
    reveal_strlit("zh");
    reveal_strlit("ja");
    reveal_strlit("ko");
    reveal_strlit("es");
    reveal_strlit("fr");
    reveal_strlit("de");
    reveal_strlit("it");
    reveal_strlit("pt");
    reveal_strlit("ru");
    reveal_strlit("ar");
    reveal_strlit("hi");
    assert("en"@[0] != "zh"@[0]);
    assert("en"@[0] != "ja"@[0]);
    assert("en"@[0] != "ko"@[0]);
    assert("en"@[1] != "es"@[1]);
    assert("en"@[0] != "fr"@[0]);
    assert("en"@[0] != "de"@[0]);
    assert("en"@[0] != "it"@[0]);
    assert("en"@[0] != "pt"@[0]);
    assert("en"@[0] != "ru"@[0]);
    assert("en"@[0] != "ar"@[0]);
    assert("en"@[0] != "hi"@[0]);
    assert("zh"@[0] != "ja"@[0]);
    assert("zh"@[0] != "ko"@[0]);
    assert("zh"@[0] != "es"@[0]);
    assert("zh"@[0] != "fr"@[0]);
    assert("zh"@[0] != "de"@[0]);
    assert("zh"@[0] != "it"@[0]);
    assert("zh"@[0] != "pt"@[0]);
    assert("zh"@[0] != "ru"@[0]);
    assert("zh"@[0] != "ar"@[0]);
    assert("zh"@[0] != "hi"@[0]);
    assert("ja"@[0] != "ko"@[0]);
    assert("ja"@[0] != "es"@[0]);
    assert("ja"@[0] != "fr"@[0]);
    assert("ja"@[0] != "de"@[0]);
    assert("ja"@[0] != "it"@[0]);
    assert("ja"@[0] != "pt"@[0]);
    assert("ja"@[0] != "ru"@[0]);
    assert("ja"@[0] != "ar"@[0]);
    assert("ja"@[0] != "hi"@[0]);
    assert("ko"@[0] != "es"@[0]);
    assert("ko"@[0] != "fr"@[0]);
    assert("ko"@[0] != "de"@[0]);
    assert("ko"@[0] != "it"@[0]);
    assert("ko"@[0] != "pt"@[0]);
    assert("ko"@[0] != "ru"@[0]);
    assert("ko"@[0] != "ar"@[0]);
    assert("ko"@[0] != "hi"@[0]);
    assert("es"@[0] != "fr"@[0]);
    assert("es"@[0] != "de"@[0]);
    assert("es"@[0] != "it"@[0]);
    assert("es"@[0] != "pt"@[0]);
    assert("es"@[0] != "ru"@[0]);
    assert("es"@[0] != "ar"@[0]);
    assert("es"@[0] != "hi"@[0]);
    assert("fr"@[0] != "de"@[0]);
    assert("fr"@[0] != "it"@[0]);
    assert("fr"@[0] != "pt"@[0]);
    assert("fr"@[0] != "ru"@[0]);
    assert("fr"@[0] != "ar"@[0]);
    assert("fr"@[0] != "hi"@[0]);
    assert("de"@[0] != "it"@[0]);
    assert("de"@[0] != "pt"@[0]);
    assert("de"@[0] != "ru"@[0]);
    assert("de"@[0] != "ar"@[0]);
    assert("de"@[0] != "hi"@[0]);
    assert("it"@[0] != "pt"@[0]);
    assert("it"@[0] != "ru"@[0]);
    assert("it"@[0] != "ar"@[0]);
    assert("it"@[0] != "hi"@[0]);
    assert("pt"@[0] != "ru"@[0]);
    assert("pt"@[0] != "ar"@[0]);
    assert("pt"@[0] != "hi"@[0]);
    assert("ru"@[0] != "ar"@[0]);
    assert("ru"@[0] != "hi"@[0]);
    assert("ar"@[0] != "hi"@[0]);
    let t = language_table();
    assert(language_names(t[0].0) == (t[0].1, t[0].2));
    assert(language_names(t[1].0) == (t[1].1, t[1].2));
    assert(language_names(t[2].0) == (t[2].1, t[2].2));
    assert(language_names(t[3].0) == (t[3].1, t[3].2));
    assert(language_names(t[4].0) == (t[4].1, t[4].2));
    assert(language_names(t[5].0) == (t[5].1, t[5].2));
    assert(language_names(t[6].0) == (t[6].1, t[6].2));
    assert(language_names(t[7].0) == (t[7].1, t[7].2));
    assert(language_names(t[8].0) == (t[8].1, t[8].2));
    assert(language_names(t[9].0) == (t[9].1, t[9].2));
    assert(language_names(t[10].0) == (t[10].1, t[10].2));
    assert(language_names(t[11].0) == (t[11].1, t[11].2));
    assert forall|i: int, j: int| 0 <= i < j < t.len() implies (#[trigger] t[i]).0 != (#[trigger] t[j]).0 by {
    }
}

fn text_list3(a: &str, b: &str, c: &str) -> (r: Vec<String>)
    ensures
        r@.map_values(|t: String| t@) == seq![a@, b@, c@],
{
    let mut v: Vec<String> = Vec::new();
    v.push(String::from_str(a));
    v.push(String::from_str(b));
    v.push(String::from_str(c));
    assert(v@.map_values(|t: String| t@) =~= seq![a@, b@, c@]);
    v
}

fn preset(id: &str, name: &str, description: &str, category: &str, tags: Vec<String>, duration: u64, style: &str)
    -> (r: SoundEffectPreset)
    ensures
        preset_text(r) == (id@, name@, description@, category@, tags@.map_values(|t: String| t@), duration, style@),
        r.default_style is Some,
{
    SoundEffectPreset {
        preset_id: String::from_str(id),
        name: String::from_str(name),
        description: String::from_str(description),
        category: String::from_str(category),
        tags,
        default_duration_ms: duration,
        default_style: Some(String::from_str(style)),
    }
}

fn category(id: &str, name: &str, description: &str, count: u32) -> (r: SoundEffectCategory)
    ensures
        (r.category_id@, r.name@, r.description@, r.preset_count) == (id@, name@, description@, count),
{
    SoundEffectCategory {
        category_id: String::from_str(id),
        name: String::from_str(name),
        description: String::from_str(description),
        preset_count: count,
    }
}

fn language(code: &str, name: &str, native_name: &str) -> (r: SupportedLanguage)
    ensures
        (r.code@, r.name@, r.native_name@) == (code@, name@, native_name@),
{
    SupportedLanguage {
        code: String::from_str(code),
        name: String::from_str(name),
        native_name: String::from_str(native_name),
    }
}

impl SoundEffectServiceImpl {
    /// The presets on offer.
    pub fn get_presets() -> (r: SoundEffectPresetsResponse)
        ensures
            r.presets@.len() == preset_table().len(),
            forall|i: int| 0 <= i < r.presets@.len() ==> preset_text(#[trigger] r.presets@[i]) == preset_table()[i],
            forall|i: int| 0 <= i < r.presets@.len() ==> (#[trigger] r.presets@[i]).default_style is Some,
    {
        let mut presets: Vec<SoundEffectPreset> = Vec::new();
        presets.push(preset("rain", "Rain", "Gentle rain falling on a window", "nature", text_list3("rain", "weather", "ambient"), 5000, "gentle"));
        presets.push(preset("thunder", "Thunder", "Thunder rumbling in the distance", "nature", text_list3("thunder", "storm", "weather"), 3000, "dramatic"));
        presets.push(preset("ocean", "Ocean Waves", "Ocean waves crashing on the shore", "nature", text_list3("ocean", "waves", "beach"), 8000, "calm"));
        presets.push(preset("footsteps", "Footsteps", "Footsteps walking on a hard surface", "human", text_list3("footsteps", "walking", "human"), 2000, "normal"));
        presets.push(preset("door", "Door Opening", "Door opening and closing", "household", text_list3("door", "opening", "household"), 1500, "normal"));
        presets.push(preset("click", "Mouse Click", "Mouse button click sound", "ui", text_list3("click", "mouse", "ui"), 100, "sharp"));
        presets.push(preset("notification", "Notification", "Notification bell sound", "ui", text_list3("notification", "bell", "alert"), 500, "pleasant"));
        presets.push(preset("explosion", "Explosion", "Large explosion sound effect", "action", text_list3("explosion", "boom", "action"), 2000, "dramatic"));
        assert(presets@.len() == 8);
        SoundEffectPresetsResponse { presets }
    }

    /// The categories on offer.
    pub fn get_categories() -> (r: SoundEffectCategoriesResponse)
        ensures
            r.categories@.len() == category_table().len(),
            forall|i: int| 0 <= i < r.categories@.len() ==> ({
                let c = #[trigger] r.categories@[i];
                (c.category_id@, c.name@, c.description@, c.preset_count) == category_table()[i]
            }),
    {
        let mut categories: Vec<SoundEffectCategory> = Vec::new();
        categories.push(category("nature", "Nature", "Natural environment sounds", 3));
        categories.push(category("human", "Human", "Human-made sounds", 1));
        categories.push(category("household", "Household", "Household item sounds", 1));
        categories.push(category("ui", "UI", "User interface sounds", 2));
        categories.push(category("action", "Action", "Action and adventure sounds", 1));
        SoundEffectCategoriesResponse { categories }
    }
}

impl TranslationServiceImpl {
    /// The languages translation supports.
    pub fn get_supported_languages() -> (r: SupportedLanguagesResponse)
        ensures
            r.languages@.len() == language_table().len(),
            forall|i: int| 0 <= i < r.languages@.len() ==> ({
                let l = #[trigger] r.languages@[i];
                (l.code@, l.name@, l.native_name@) == language_table()[i]
            }),
    {
        let mut languages: Vec<SupportedLanguage> = Vec::new();
        languages.push(language("en", "English", "English"));
        languages.push(language("zh", "Chinese", "中文"));
        languages.push(language("ja", "Japanese", "日本語"));
        languages.push(language("ko", "Korean", "한국어"));
        languages.push(language("es", "Spanish", "Español"));
        languages.push(language("fr", "French", "Français"));
        languages.push(language("de", "German", "Deutsch"));
        languages.push(language("it", "Italian", "Italiano"));
        languages.push(language("pt", "Portuguese", "Português"));
        languages.push(language("ru", "Russian", "Русский"));
        languages.push(language("ar", "Arabic", "العربية"));
        languages.push(language("hi", "Hindi", "हिन्दी"));
        SupportedLanguagesResponse { languages }
    }
}

} // verus!
