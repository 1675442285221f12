use converto::job_id::JobId;
use converto::level::CompressionLevel;
use converto::processor::{
    AddSession, CompleteProcess, FileProcessor, RemoveSession, UpdateProgress,
};
use converto::status::Status;
use converto::wire::{render_snapshot, FileProgress, WsMessage};

fn task(id: &str, progress: u8) -> FileProgress {
    FileProgress {
        id: id.to_string(),
        progress,
        file_name: Some(format!("{}.pdf", id)),
        message: format!("Arquivo {}.pdf recebido.", id),
        compression_level: Some(CompressionLevel::Medium),
        status: Status::InProgress,
    }
}

#[test]
fn new_registry_delivers_nothing() {
    let registry: FileProcessor<u32> = FileProcessor::new();
    assert!(registry.deliver(JobId(1), WsMessage("x".to_string())).is_none());
    assert!(registry.update_progress(JobId(1), Vec::new(), Status::InProgress).is_none());
    assert!(registry.complete_process(JobId(1), Vec::new(), Status::Completed).is_none());
}

#[test]
fn delivers_to_the_registered_sink() {
    let mut registry: FileProcessor<&str> = FileProcessor::new();
    registry.add_session(JobId(1), "one");
    registry.add_session(JobId(2), "two");
    let d = registry.deliver(JobId(2), WsMessage("payload".to_string())).unwrap();
    assert_eq!(*d.socket, "two");
    assert_eq!(d.message.0, "payload");
    let d = registry.deliver(JobId(1), WsMessage("other".to_string())).unwrap();
    assert_eq!(*d.socket, "one");
    assert_eq!(d.message.0, "other");
    assert!(registry.deliver(JobId(3), WsMessage("lost".to_string())).is_none());
}

#[test]
fn second_registration_supersedes_the_first() {
    let mut registry: FileProcessor<String> = FileProcessor::new();
    registry.add_session(JobId(9), "old".to_string());
    registry.add_session(JobId(9), "new".to_string());
    for _ in 0..3 {
        let d = registry.deliver(JobId(9), WsMessage("m".to_string())).unwrap();
        assert_eq!(d.socket, "new");
    }
    registry.remove_session(JobId(9));
    assert!(registry.deliver(JobId(9), WsMessage("m".to_string())).is_none());
}

#[test]
fn removing_is_idempotent() {
    let mut registry: FileProcessor<u8> = FileProcessor::new();
    registry.add_session(JobId(1), 10);
    registry.add_session(JobId(2), 20);
    registry.remove_session(JobId(1));
    registry.remove_session(JobId(1));
    registry.remove_session(JobId(77));
    assert!(registry.deliver(JobId(1), WsMessage(String::new())).is_none());
    assert_eq!(*registry.deliver(JobId(2), WsMessage(String::new())).unwrap().socket, 20);
}

#[test]
fn a_removed_job_can_be_registered_again() {
    let mut registry: FileProcessor<u8> = FileProcessor::new();
    registry.add_session(JobId(1), 10);
    registry.remove_session(JobId(1));
    registry.add_session(JobId(1), 11);
    assert_eq!(*registry.deliver(JobId(1), WsMessage(String::new())).unwrap().socket, 11);
}

#[test]
fn publishes_the_wire_message_of_the_snapshot() {
    let mut registry: FileProcessor<u32> = FileProcessor::new();
    let id = JobId(0x550e8400_e29b_41d4_a716_446655440000);
    registry.add_session(id, 5);
    let files = vec![task("a", 0), task("b", 100)];
    let expected = render_snapshot(id, &files, Status::InProgress).0;
    let d = registry.update_progress(id, files, Status::InProgress).unwrap();
    assert_eq!(*d.socket, 5);
    assert_eq!(d.message.0, expected);
    assert!(d.message.0.starts_with("{\"id\":\"550e8400-e29b-41d4-a716-446655440000\",\"files\":[{"));
    assert!(d.message.0.ends_with("],\"status\":\"InProgress\"}"));
}

#[test]
fn completion_is_published_like_progress() {
    let mut registry: FileProcessor<u32> = FileProcessor::new();
    let id = JobId(3);
    registry.add_session(id, 5);
    let d = registry.complete_process(id, vec![task("a", 100)], Status::Completed).unwrap();
    assert_eq!(*d.socket, 5);
    assert_eq!(d.message.0, render_snapshot(id, &vec![task("a", 100)], Status::Completed).0);
}

#[test]
fn messages_are_handled_like_calls() {
    let mut registry: FileProcessor<u32> = FileProcessor::new();
    let id = JobId(4);
    registry.handle_add_session(AddSession { id, addr: 1 });
    let d = registry
        .handle_update_progress(UpdateProgress {
            id,
            status: Status::InProgress,
            files: vec![task("a", 0)],
        })
        .unwrap();
    assert_eq!(*d.socket, 1);
    assert_eq!(d.message.0, render_snapshot(id, &vec![task("a", 0)], Status::InProgress).0);
    let d = registry
        .handle_complete_process(CompleteProcess {
            id,
            status: Status::Completed,
            files: vec![task("a", 100)],
        })
        .unwrap();
    assert_eq!(d.message.0, render_snapshot(id, &vec![task("a", 100)], Status::Completed).0);
    registry.handle_add_session(AddSession { id, addr: 2 });
    let d = registry
        .handle_update_progress(UpdateProgress { id, status: Status::InProgress, files: Vec::new() })
        .unwrap();
    assert_eq!(*d.socket, 2);
    registry.handle_remove_session(RemoveSession { id });
    registry.handle_remove_session(RemoveSession { id });
    assert!(registry
        .handle_update_progress(UpdateProgress { id, status: Status::InProgress, files: Vec::new() })
        .is_none());
    assert!(registry
        .handle_complete_process(CompleteProcess { id, status: Status::Completed, files: Vec::new() })
        .is_none());
}

#[test]
fn jobs_do_not_hear_of_each_other() {
    let mut registry: FileProcessor<u32> = FileProcessor::new();
    registry.add_session(JobId(1), 100);
    assert!(registry.update_progress(JobId(2), vec![task("a", 0)], Status::InProgress).is_none());
    registry.remove_session(JobId(2));
    assert!(registry.update_progress(JobId(1), vec![task("a", 0)], Status::InProgress).is_some());
}
