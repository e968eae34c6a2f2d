//! Speech service scenarios, driven through the service's decisions with an
//! in-memory task store.

use sdkwork_audio::clock::Timestamp;
use sdkwork_audio::formats::{AudioFormat, TextFormat};
use sdkwork_audio::lifecycle::{CreateAction, CreateEvent, ServiceError, TaskTicket};
use sdkwork_audio::speech::{SpeechServiceImpl, SpeechSynthesisRequest, VoiceListRequest};
use sdkwork_audio::task::{AudioGenerationTask, CreateTaskRequest, TaskStatus};
use sdkwork_audio::voice::VoiceListResult;

struct MemoryTasks {
    tasks: Vec<AudioGenerationTask>,
}

impl MemoryTasks {
    fn new() -> Self {
        MemoryTasks { tasks: Vec::new() }
    }

    fn create(&mut self, request: CreateTaskRequest) -> AudioGenerationTask {
        let now = Timestamp { secs: 1_700_000_000, nanos: 0 };
        let task = AudioGenerationTask {
            id: 1,
            task_no: format!("task-{}", self.tasks.len() + 1),
            tenant_id: request.tenant_id,
            organization_id: request.organization_id,
            user_id: request.user_id,
            operation_type: request.operation_type.as_str().to_string(),
            provider_code: request.provider_code,
            provider_route_id: request.provider_route_id,
            model: request.model,
            provider_task_id: None,
            idempotency_key: request.idempotency_key,
            input_hash: None,
            status: TaskStatus::Queued.as_str().to_string(),
            progress: 0,
            request_json: request.request_json,
            normalized_options_json: None,
            provider_request_json: None,
            provider_response_json: None,
            result_json: None,
            error_code: None,
            error_message: None,
            callback_url: request.callback_url,
            callback_status: None,
            submitted_at: None,
            completed_at: None,
            expires_at: None,
            created_at: now,
            updated_at: now,
            deleted: false,
            version: 0,
        };
        self.tasks.push(task.clone());
        task
    }

    fn find_by_key(&self, tenant_id: i64, operation_type: &str, key: &str) -> Option<AudioGenerationTask> {
        self.tasks
            .iter()
            .find(|t| t.tenant_id == tenant_id && t.operation_type == operation_type && t.idempotency_key.as_deref() == Some(key))
            .cloned()
    }

    fn find_by_no(&self, task_no: &str) -> Option<AudioGenerationTask> {
        self.tasks.iter().find(|t| t.task_no == task_no).cloned()
    }
}

fn create_speech(service: &SpeechServiceImpl, store: &mut MemoryTasks, request: &SpeechSynthesisRequest) -> Result<TaskTicket, ServiceError> {
    let mut flow = service.creation(request, Ok("{}".to_string()));
    let mut event = CreateEvent::Start;
    loop {
        let (next, action) = flow.step(event);
        flow = next;
        event = match action {
            CreateAction::FindByIdempotencyKey { tenant_id, operation_type, idempotency_key } => {
                CreateEvent::LookedUp(store.find_by_key(tenant_id, &operation_type, &idempotency_key))
            }
            CreateAction::CreateTask(r) => CreateEvent::Created(store.create(r)),
            CreateAction::Respond(answer) => return answer,
            CreateAction::Accept { task: _, ticket } => return Ok(ticket),
        };
    }
}

fn create_request() -> SpeechSynthesisRequest {
    SpeechSynthesisRequest {
        tenant_id: 100_001,
        organization_id: 0,
        user_id: 1,
        text: "Hello, world!".to_string(),
        text_format: TextFormat::Plain,
        language: Some("en".to_string()),
        voice_id: Some("voice-123".to_string()),
        speed: 1.0f32.to_string(),
        pitch: 1.0f32.to_string(),
        volume: 1.0f32.to_string(),
        emotion: Some("neutral".to_string()),
        emotion_intensity: 0.5f32.to_string(),
        audio_format: AudioFormat::MP3,
        sample_rate: 24000,
        idempotency_key: None,
    }
}

fn create_service() -> SpeechServiceImpl {
    SpeechServiceImpl::new("custom".to_string())
}

#[test]
fn test_create_speech_success() {
    let service = create_service();
    let mut store = MemoryTasks::new();
    let request = create_request();

    let result = create_speech(&service, &mut store, &request);
    assert!(result.is_ok());

    let response = result.unwrap();
    assert!(!response.task_id.is_empty());
    assert!(!response.task_no.is_empty());
    assert_eq!(response.status, "queued");
    assert_eq!(response.estimated_duration_ms, Some(2000));
}

#[test]
fn test_create_speech_with_idempotency_key() {
    let service = create_service();
    let mut store = MemoryTasks::new();
    let mut request = create_request();
    request.idempotency_key = Some("key-123".to_string());

    let result1 = create_speech(&service, &mut store, &request);
    assert!(result1.is_ok());

    let result2 = create_speech(&service, &mut store, &request);
    assert!(result2.is_ok());

    let response1 = result1.unwrap();
    let response2 = result2.unwrap();
    assert_eq!(response1.task_no, response2.task_no);
}

#[test]
fn test_list_voices_empty() {
    let request = VoiceListRequest {
        tenant_id: 100_001,
        user_id: None,
        language: None,
        gender: None,
        voice_type: None,
        limit: 20,
        offset: 0,
    };
    let filter = SpeechServiceImpl::voice_filter(&request);
    assert_eq!(filter.tenant_id, Some(100_001));

    let page = VoiceListResult { voices: Vec::new(), total: 0, has_more: false, next_cursor: None };
    let response = SpeechServiceImpl::voice_list(page);
    assert_eq!(response.voices.len(), 0);
    assert_eq!(response.total, 0);
    assert_eq!(response.has_more, false);
}

#[test]
fn test_cancel_speech_not_found() {
    let store = MemoryTasks::new();
    let now = Timestamp { secs: 1_700_000_100, nanos: 0 };

    let result = SpeechServiceImpl::cancellation("non-existent", store.find_by_no("non-existent"), now);
    assert!(result.is_err());

    match result.unwrap_err() {
        ServiceError::TaskNotFound { task_no } => {
            assert_eq!(task_no, "non-existent");
        }
        _ => panic!("Expected TaskNotFound error"),
    }
}

#[test]
fn test_calculate_input_hash() {
    let request1 = create_request();
    let request2 = create_request();

    // Same request should produce same hash
    let hash1 = SpeechServiceImpl::calculate_input_hash(&request1);
    let hash2 = SpeechServiceImpl::calculate_input_hash(&request2);
    assert_eq!(hash1, hash2);

    // Different text should produce different hash
    let mut request3 = create_request();
    request3.text = "Different text".to_string();
    let hash3 = SpeechServiceImpl::calculate_input_hash(&request3);
    assert_ne!(hash1, hash3);
}
