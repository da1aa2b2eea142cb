use emb_public::shared_memory::manager::{SharedMemoryManager, SharedMemorySegment};
use emb_public::shared_memory::server::SharedMemoryServer;
use emb_public::shared_memory::types::{
    MemoryRegion, PrinterCmd, PrinterCommand, SharedMemoryConfig, SharedMemoryError,
    SharedMemoryPermissions,
};

#[test]
fn test_shared_memory_config() {
    let config = SharedMemoryConfig::new("test_shm", 4096)
        .with_permissions(SharedMemoryPermissions::ReadWrite)
        .with_alignment(128)
        .with_cache_optimization(false);

    assert_eq!(config.name, "test_shm");
    assert_eq!(config.size, 4096);
    assert_eq!(config.permissions, SharedMemoryPermissions::ReadWrite);
    assert_eq!(config.alignment, 128);
    assert!(!config.cache_optimized);
}

#[test]
fn test_memory_region() {
    let data = vec![1u32, 2, 3, 4, 5];
    let region = MemoryRegion::new("test_region".to_string(), data);

    assert_eq!(region.size(), 20);
    assert_eq!(region.as_slice().len(), 5);

    assert_eq!(*region.get(0), 1);
    assert_eq!(*region.get(4), 5);

    let slice = region.as_slice();
    assert_eq!(slice, &[1, 2, 3, 4, 5]);
}

#[test]
fn registry_checks_and_records_segments() {
    let mut manager = SharedMemoryManager::new(42).unwrap();
    assert_eq!(
        manager.check_new_segment(&SharedMemoryConfig::new("invalid", 0), 4096),
        Err(SharedMemoryError::InvalidSize)
    );
    let config = SharedMemoryConfig::new("test_segment", 1024);
    let size = manager.check_new_segment(&config, 4096).unwrap();
    assert_eq!(size, 4096);
    let handle = manager.insert_segment(SharedMemorySegment::new(config.clone(), size)).unwrap();
    assert_eq!(handle.get_name(), "test_segment");
    assert_eq!(handle.get_size(), 1024);
    assert_eq!(manager.check_new_segment(&config, 4096), Err(SharedMemoryError::AlreadyExists));
    assert!(manager.insert_segment(SharedMemorySegment::new(config, size)).is_err());

    let stats = manager.get_stats();
    assert_eq!(stats.total_segments, 1);
    assert_eq!(stats.total_memory_bytes, 4096);
    assert_eq!(stats.process_id, 42);
    assert!(stats.uptime <= 5);
    assert_eq!(manager.list_segments(), vec!["test_segment".to_string()]);
    assert!(manager.open_segment("nonexistent").is_err());
    assert_eq!(manager.open_segment("test_segment").unwrap().get_size(), 1024);
    assert_eq!(manager.remove_segment("test_segment"), Ok(()));
    assert_eq!(manager.remove_segment("test_segment"), Err(SharedMemoryError::NotFound));
    assert!(manager.list_segments().is_empty());
}

#[test]
fn uptime_counts_from_creation() {
    let manager = SharedMemoryManager::new_at(7, 1_000);
    assert_eq!(manager.get_stats_at(1_060).uptime, 60);
    assert_eq!(manager.get_stats_at(1_000).uptime, 0);
    assert_eq!(manager.get_stats_at(900).uptime, 0);
    assert_eq!(manager.get_stats_at(1_060).process_id, 7);
}

#[test]
fn page_rounding() {
    let manager = SharedMemoryManager::new(1).unwrap();
    assert_eq!(manager.check_new_segment(&SharedMemoryConfig::new("a", 4096), 4096), Ok(4096));
    assert_eq!(manager.check_new_segment(&SharedMemoryConfig::new("a", 4097), 4096), Ok(8192));
    assert_eq!(manager.check_new_segment(&SharedMemoryConfig::new("a", 1), 4096), Ok(4096));
}

#[test]
fn command_ring_is_first_in_first_out() {
    let mut server = SharedMemoryServer::new();
    assert!(server.get_next_command().is_none());
    {
        let data = server.get_data_mut();
        for (i, cmd) in [PrinterCmd::StartPrint, PrinterCmd::Home].iter().enumerate() {
            let mut c = PrinterCommand::new();
            c.cmd = *cmd;
            c.param1 = i as u32;
            let head = data.cmd_queue.head as usize;
            data.cmd_queue.commands[head] = c;
            data.cmd_queue.head = (data.cmd_queue.head + 1) % 32;
            data.cmd_queue.count += 1;
        }
    }
    assert_eq!(server.get_next_command().unwrap().cmd, PrinterCmd::StartPrint);
    assert_eq!(server.get_next_command().unwrap().cmd, PrinterCmd::Home);
    assert!(server.get_next_command().is_none());
}

#[test]
fn acknowledgements_fill_the_ring_but_one_slot() {
    let mut server = SharedMemoryServer::new();
    for _ in 0..40 {
        server.send_ack(PrinterCmd::Home, true);
    }
    assert_eq!(server.get_data().ack_queue.count, 31);
    assert_eq!(server.get_data().ack_queue.commands[0].cmd, PrinterCmd::Home);
    server.send_ack(PrinterCmd::Home, false);
    assert_eq!(server.get_data().ack_queue.count, 31);
    let mut fresh = SharedMemoryServer::new();
    fresh.send_ack(PrinterCmd::StopPrint, false);
    assert_eq!(fresh.get_data().ack_queue.commands[0].cmd, PrinterCmd::NoCommand);
    assert_eq!(PrinterCmd::EmergencyStop.code(), 8);
}

#[test]
fn file_names_are_nul_terminated() {
    let mut c = PrinterCommand::new();
    c.set_filename("part.gcode");
    assert_eq!(c.filename_len(), 10);
    assert_eq!(&c.filename[..10], b"part.gcode");
    assert_eq!(c.get_filename(), "part.gcode");
    let long = "x".repeat(300);
    c.set_filename(&long);
    assert_eq!(c.filename_len(), 255);
    assert_eq!(c.get_filename(), "x".repeat(255));
    let mut full = PrinterCommand::new();
    full.filename = [b'a'; 256];
    assert_eq!(full.get_filename(), "a".repeat(256));
    let mut bad = PrinterCommand::new();
    bad.filename[0] = b'o';
    bad.filename[1] = 0xff;
    bad.filename[2] = b'k';
    assert_eq!(bad.get_filename(), "o\u{fffd}k");
    assert_eq!(
        SharedMemoryError::CreationFailed("x".to_string()).message(),
        "Creation failed: x"
    );
}

#[test]
fn memory_region_in_place_changes_and_identifier() {
    let id = uuid::Uuid::new_v4();
    let mut region = MemoryRegion::new(id.to_string(), vec![1u32, 2, 3]);
    *region.get_mut(1) = 20;
    region.as_mut_slice()[2] = 30;
    assert_eq!(region.as_slice(), &[1, 20, 30]);
    assert_eq!(region.size(), 12);
    assert_eq!(region.region_id(), id);
    let other = MemoryRegion::new("not-a-uuid".to_string(), vec![0u8]);
    assert_eq!(other.region_id(), uuid::Uuid::nil());
}
