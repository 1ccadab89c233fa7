use temporal_lens::shmem::handshake;
use temporal_lens::shmem::open_verdict;
use temporal_lens::shmem::FrameData;
use temporal_lens::shmem::SharedMemoryData;
use temporal_lens::shmem::SharedMemoryOpenError;
use temporal_lens::shmem::LOG_DATA_SIZE;
use temporal_lens::shmem::MAGIC;
use temporal_lens::shmem::NUM_ENTRIES;
use temporal_lens::shmem::PROTOCOL_VERSION;

fn pointer_width() -> u32 {
    std::mem::size_of::<usize>() as u32
}

#[test]
fn constants_have_their_wire_values() {
    assert_eq!(MAGIC, 0x1DC45EF1);
    assert_eq!(PROTOCOL_VERSION, 0x0001_0004);
    assert_eq!(NUM_ENTRIES, 256);
    assert_eq!(LOG_DATA_SIZE, 8192);
}

#[test]
fn matching_header_is_accepted() {
    assert!(matches!(handshake(MAGIC, PROTOCOL_VERSION, pointer_width()), Ok(())));
}

#[test]
fn foreign_magic_is_bad_magic() {
    let verdict = handshake(0xDEADBEEF, PROTOCOL_VERSION, pointer_width());
    assert!(matches!(verdict, Err(SharedMemoryOpenError::BadMagic)));
}

#[test]
fn older_protocol_is_a_protocol_mismatch() {
    let verdict = handshake(MAGIC, 0x0001_0003, pointer_width());
    assert!(matches!(verdict, Err(SharedMemoryOpenError::ProtocolMismatch)));
}

#[test]
fn other_pointer_width_is_a_platform_mismatch() {
    let verdict = handshake(MAGIC, PROTOCOL_VERSION, pointer_width() + 4);
    assert!(matches!(verdict, Err(SharedMemoryOpenError::PlatformMismatch)));
    let verdict = handshake(MAGIC, PROTOCOL_VERSION, 0);
    assert!(matches!(verdict, Err(SharedMemoryOpenError::PlatformMismatch)));
}

#[test]
fn the_first_word_that_differs_names_the_error() {
    let verdict = handshake(0, 0, 0);
    assert!(matches!(verdict, Err(SharedMemoryOpenError::BadMagic)));
    let verdict = handshake(MAGIC, 0, 0);
    assert!(matches!(verdict, Err(SharedMemoryOpenError::ProtocolMismatch)));
    let verdict = handshake(MAGIC + 1, PROTOCOL_VERSION, 0);
    assert!(matches!(verdict, Err(SharedMemoryOpenError::BadMagic)));
}

#[test]
fn backing_errors_are_carried() {
    let error = SharedMemoryOpenError::ShmemError(shared_memory::ShmemError::LinkDoesNotExist);
    assert!(matches!(
        error,
        SharedMemoryOpenError::ShmemError(shared_memory::ShmemError::LinkDoesNotExist)
    ));
    assert!(format!("{:?}", error).contains("LinkDoesNotExist"));
}

#[test]
fn new_region_passes_its_own_handshake() {
    let region = Box::new(SharedMemoryData::new());
    assert_eq!(region.magic, MAGIC);
    assert_eq!(region.protocol_version, PROTOCOL_VERSION);
    assert_eq!(region.size_of_usize, pointer_width());
    assert_eq!(region.log_data_count, 0);
    assert_eq!(region.frame_data.size(), 0);
    assert_eq!(region.zone_data.size(), 0);
    assert_eq!(region.heap_data.size(), 0);
    assert_eq!(region.plot_data.size(), 0);
    assert!(matches!(region.check(), Ok(())));
}

#[test]
fn region_with_older_protocol_is_refused_and_left_untouched() {
    let mut region = Box::new(SharedMemoryData::new());
    region.protocol_version = 0x0001_0003;
    assert!(matches!(region.check(), Err(SharedMemoryOpenError::ProtocolMismatch)));
    assert_eq!(region.zone_data.size(), 0);
    assert_eq!(region.frame_data.size(), 0);
    region.magic = 1;
    assert!(matches!(region.check(), Err(SharedMemoryOpenError::BadMagic)));
}

#[test]
fn init_writes_the_header_and_empties_the_channels() {
    let mut region = Box::new(SharedMemoryData::new());
    region.magic = 0;
    region.protocol_version = 0;
    region.size_of_usize = 0;
    region.log_data_count = 7;
    region.log_data[3] = 9;
    region.frame_data.push(&FrameData { number: 1, end: 2, duration: 3 });
    assert!(region.log_data_lock.try_lock());
    assert!(region.frame_data.lock().try_lock());
    region.init();
    assert_eq!(region.magic, MAGIC);
    assert_eq!(region.protocol_version, PROTOCOL_VERSION);
    assert_eq!(region.size_of_usize as usize, std::mem::size_of::<usize>());
    assert_eq!(region.log_data_count, 0);
    assert_eq!(region.log_data[3], 9);
    assert_eq!(region.frame_data.size(), 0);
    assert!(region.log_data_lock.try_lock());
    assert!(region.frame_data.lock().try_lock());
}

#[test]
fn a_failed_mapping_is_passed_on() {
    let verdict = open_verdict(Err(shared_memory::ShmemError::LinkDoesNotExist));
    assert!(matches!(
        verdict,
        Err(SharedMemoryOpenError::ShmemError(shared_memory::ShmemError::LinkDoesNotExist))
    ));
    let verdict = open_verdict(Err(shared_memory::ShmemError::MapOpenFailed(13)));
    assert!(matches!(
        verdict,
        Err(SharedMemoryOpenError::ShmemError(shared_memory::ShmemError::MapOpenFailed(13)))
    ));
}

#[test]
fn a_mapped_region_is_held_to_the_handshake() {
    assert!(matches!(open_verdict(Ok((MAGIC, PROTOCOL_VERSION, pointer_width()))), Ok(())));
    assert!(matches!(
        open_verdict(Ok((0, PROTOCOL_VERSION, pointer_width()))),
        Err(SharedMemoryOpenError::BadMagic)
    ));
    assert!(matches!(
        open_verdict(Ok((MAGIC, 0x0001_0003, pointer_width()))),
        Err(SharedMemoryOpenError::ProtocolMismatch)
    ));
    assert!(matches!(
        open_verdict(Ok((MAGIC, PROTOCOL_VERSION, 2))),
        Err(SharedMemoryOpenError::PlatformMismatch)
    ));
}

#[test]
fn path_names_are_fixed() {
    assert_eq!(temporal_lens::shmem::DATA_DIR_NAME, "temporal-lens");
    assert_eq!(temporal_lens::shmem::SHMEM_FILE_NAME, "shmem");
}
