use tauri_plugin_any_sync::gateway::{settle, CallOutcome};
use tauri_plugin_any_sync::CommandRequest;

#[test]
fn test_command_request_serialization() {
    let cmd = "syncspace.v1.SpaceCreate";
    let data = [1, 2, 3, 4, 5];

    let request = CommandRequest::new(cmd, &data);
    assert_eq!(request.cmd, "syncspace.v1.SpaceCreate");
    assert_eq!(request.data.len(), 5);
    assert_eq!(request.data, vec![1, 2, 3, 4, 5]);
}

#[test]
fn test_command_response_serialization() {
    let response_data = vec![10, 20, 30, 40];

    let response = settle("Command", CallOutcome::Replied(response_data)).unwrap();
    assert_eq!(response.len(), 4);
    assert_eq!(response, vec![10, 20, 30, 40]);
}

#[test]
fn test_empty_command_data() {
    let cmd = "syncspace.v1.Shutdown";
    let data: Vec<u8> = vec![];

    let request = CommandRequest::new(cmd, &data);
    assert_eq!(request.cmd.len(), 21);
    assert_eq!(request.data.len(), 0);
}

#[test]
fn test_large_command_data() {
    let cmd = "syncspace.v1.DocumentCreate";
    let mut data = vec![0u8; 1_000_000];
    for (i, d) in data.iter_mut().enumerate() {
        *d = (i % 256) as u8;
    }

    let request = CommandRequest::new(cmd, &data);
    let response = settle("Command", CallOutcome::Replied(request.data)).unwrap();
    assert_eq!(response.len(), 1_000_000);
    for (i, d) in response.iter().enumerate() {
        assert_eq!(*d, (i % 256) as u8);
    }
}

#[test]
fn test_binary_data_preservation() {
    let mut data = [0xFFu8; 100];
    data[0] = 0x00;
    data[50] = 0x7F;
    data[99] = 0x80;

    let request = CommandRequest::new("syncspace.v1.DocumentGet", &data);
    let response = settle("Command", CallOutcome::Replied(request.data)).unwrap();
    assert_eq!(response[0], 0x00);
    assert_eq!(response[50], 0x7F);
    assert_eq!(response[99], 0x80);
    assert_eq!(response, data.to_vec());
}

#[test]
fn test_command_naming_conventions() {
    let commands = vec![
        "syncspace.v1.Init",
        "syncspace.v1.Shutdown",
        "syncspace.v1.SpaceCreate",
        "syncspace.v1.SpaceJoin",
        "syncspace.v1.DocumentCreate",
        "syncspace.v1.DocumentGet",
        "syncspace.v1.DocumentUpdate",
        "syncspace.v1.DocumentDelete",
        "syncspace.v1.DocumentList",
        "syncspace.v1.DocumentQuery",
    ];

    for cmd in commands {
        let request = CommandRequest::new(cmd, &[]);
        let parts: Vec<&str> = request.cmd.split('.').collect();
        assert_eq!(parts.len(), 3);
        assert_eq!(parts[0], "syncspace");
        assert_eq!(parts[1], "v1");
        assert!(!parts[2].is_empty());
    }
}
