use nechto::input::{quit_requested, Action, InputHandler, KeyEvent};
use nechto::ply::{Error, Format, ParserState};
use nechto::resources::{
    allocation_request, message_level, spirv_words, AllocationRequest, BufferDescriptor, ContextOptions,
    MemoryType, MessageLevel,
};
use nechto::error::GpuError;
use winit::keyboard::KeyCode;

#[test]
fn key_events_drive_actions() {
    let mut input = InputHandler::new();
    input.add_action(KeyCode::Escape, Action::new("quit"));
    input.add_action(KeyCode::KeyW, Action::new("forward"));
    let forward = Action::new("forward");
    input.submit_key_event(KeyEvent { key: Some(KeyCode::KeyW), pressed: true });
    assert!(input.is_action_active(&forward));
    input.submit_key_event(KeyEvent { key: Some(KeyCode::KeyA), pressed: true });
    input.submit_key_event(KeyEvent { key: None, pressed: true });
    input.submit_key_event(KeyEvent { key: Some(KeyCode::KeyW), pressed: false });
    assert!(!input.is_action_active(&forward));
    let names: Vec<&str> = input.actions().iter().map(|a| a.name()).collect();
    assert_eq!(names, vec!["forward", "forward"]);
    assert!(!quit_requested(input.actions()));
    input.submit_key_event(KeyEvent { key: Some(KeyCode::Escape), pressed: true });
    assert!(quit_requested(input.actions()));
    input.reset();
    assert!(input.actions().is_empty());
    assert!(input.is_action_active(&Action::new("quit")));
}

#[test]
fn rebinding_a_key_replaces_its_action() {
    let mut input = InputHandler::new();
    input.add_action(KeyCode::Space, Action::new("jump"));
    input.add_action(KeyCode::Space, Action::new("fire"));
    input.submit_key_event(KeyEvent { key: Some(KeyCode::Space), pressed: true });
    assert_eq!(input.actions()[0].name(), "fire");
    assert!(!input.is_action_active(&Action::new("jump")));
}

#[test]
fn ply_format_line() {
    let mut state = ParserState::default();
    assert!(state.set_format(b"format binary_big_endian 1.0").is_ok());
    assert_eq!(state.format, Format::BinaryBigEndian);
    assert!(state.set_format(b"format binary_little_endian 1.0").is_ok());
    assert_eq!(state.format, Format::BinaryLittleEndian);
    assert!(matches!(state.set_format(b"format ascii 1.0"), Err(Error::InvalidDataFormat)));
    assert!(matches!(state.set_format(b"format"), Err(Error::InvalidDataFormat)));
    assert!(matches!(state.set_format(b"format  binary_big_endian"), Err(Error::InvalidDataFormat)));
    assert_eq!(state.format, Format::BinaryLittleEndian);
}

#[test]
fn buffer_requests() {
    let host = BufferDescriptor { memory_type: MemoryType::HostVisible, size: 64, usage_flags: 0 };
    assert_eq!(allocation_request(&host), AllocationRequest { size: 64, align_mask: 0, memory_types: 2 });
    let local = BufferDescriptor { memory_type: MemoryType::DeviceLocal, size: 4096, usage_flags: 0 };
    assert_eq!(allocation_request(&local), AllocationRequest { size: 4096, align_mask: 0, memory_types: 1 });
    assert!(!ContextOptions::default().enable_debug);
}

#[test]
fn spirv_code_is_whole_words() {
    let bytes = [0x03u8, 0x02, 0x23, 0x07, 1, 0, 0, 0];
    let words = spirv_words(&bytes).unwrap();
    assert_eq!(words.len(), 2);
    assert_eq!(words[0], u32::from_ne_bytes([0x03, 0x02, 0x23, 0x07]));
    assert_eq!(words[1], u32::from_ne_bytes([1, 0, 0, 0]));
    assert_eq!(spirv_words(&bytes[..7]), Err(GpuError::CreationFailure));
    assert_eq!(spirv_words(&[]), Err(GpuError::CreationFailure));
}

#[test]
fn driver_message_levels() {
    assert_eq!(message_level(0x1000 | 0x1), MessageLevel::Error);
    assert_eq!(message_level(0x100), MessageLevel::Warn);
    assert_eq!(message_level(0x10), MessageLevel::Info);
    assert_eq!(message_level(0x1), MessageLevel::Debug);
    assert_eq!(message_level(0), MessageLevel::Info);
}
