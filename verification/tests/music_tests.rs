use reboot_lib::music::{
    patterns_from_bytes, LoaderRequest, MODAsyncLoader, MODHeader, MODPattern, MODSampleData,
    MODROW, MOD_HEADER_LEN, MOD_PATTERN_LEN,
};

#[test]
fn row_fields() {
    let r = MODROW([0x1A, 0xBC, 0x3D, 0x7F]);
    assert_eq!(r.period(), 0xABC);
    assert_eq!(r.sample_index(), 0x13);
    let c = r.command();
    assert_eq!((c.kind, c.value), (0xD, 0x7F));
}

fn module(frames: &[u8], sample0_words: u16) -> Vec<u8> {
    let mut b = vec![0u8; MOD_HEADER_LEN];
    b[0..4].copy_from_slice(b"song");
    b[20..25].copy_from_slice(b"kick!");
    b[42..44].copy_from_slice(&sample0_words.to_be_bytes());
    b[44] = 3;
    b[45] = 64;
    b[46..48].copy_from_slice(&1u16.to_be_bytes());
    b[48..50].copy_from_slice(&2u16.to_be_bytes());
    b[950] = frames.len() as u8;
    b[952..952 + frames.len()].copy_from_slice(frames);
    b[1080..1084].copy_from_slice(b"M.K.");
    b
}

#[test]
fn header_fields() {
    let b = module(&[0, 2, 1], 3);
    let h = MODHeader::parse(&b);
    assert_eq!(&h.song_name[..4], b"song");
    assert_eq!(h.song_length, 3);
    assert_eq!(h.signature, b"M.K.".to_vec());
    assert_eq!(h.frames.len(), 128);
    assert_eq!(h.pattern_bytes(), 3 * MOD_PATTERN_LEN);
    assert_eq!(h.sample_bytes(), 6);
    let s = &h.sample_info[0];
    assert_eq!(&s.name[..5], b"kick!");
    assert_eq!((s.length, s.finetune, s.volume, s.repeat_point, s.repeat_length), (6, 3, 64, 1, 2));
    let e = MODSampleData::parse(&b, 50);
    assert_eq!(e.length, 0);
}

#[test]
fn patterns_split_into_rows() {
    let mut data = vec![0u8; 2 * MOD_PATTERN_LEN];
    data[MOD_PATTERN_LEN + 16..MOD_PATTERN_LEN + 20].copy_from_slice(&[0x1A, 0xBC, 0x3D, 0x7F]);
    let ps = patterns_from_bytes(&data);
    assert_eq!(ps.len(), 2);
    let row = ps[1].row(1);
    assert_eq!(row[0].period(), 0xABC);
    let single = MODPattern::from_bytes(&data[..MOD_PATTERN_LEN]);
    assert_eq!(single.0.len(), 256);
}

#[test]
fn loader_reads_a_module_in_steps() {
    let b = module(&[0], 2);
    let mut l = MODAsyncLoader::new();
    assert!(matches!(l.pending_read(), LoaderRequest::SeekAndRead(1084)));
    assert_eq!(l.progress(), (0, usize::MAX));
    assert!(l.process(Ok(b[..600].to_vec())).is_none());
    assert!(matches!(l.pending_read(), LoaderRequest::Read(484)));
    assert_eq!(l.progress(), (600, usize::MAX));
    assert!(l.process(Ok(b[600..].to_vec())).is_none());
    assert!(matches!(l.pending_read(), LoaderRequest::Read(1024)));
    assert_eq!(l.progress(), (1084, 1084 + 4 + 1024));
    let mut pattern = vec![0u8; MOD_PATTERN_LEN];
    pattern[0] = 0x10;
    assert!(l.process(Ok(pattern)).is_none());
    assert!(matches!(l.pending_read(), LoaderRequest::Read(4)));
    assert_eq!(l.progress(), (1084 + 1024, 1084 + 4 + 1024));
    assert!(l.process(Ok(vec![9, 8])).is_none());
    assert_eq!(l.progress(), (1084 + 1024 + 2, 1084 + 4 + 1024));
    assert!(matches!(l.pending_read(), LoaderRequest::Read(2)));
    assert!(l.process(Ok(vec![7, 6])).is_none());
    assert!(matches!(l.pending_read(), LoaderRequest::NoRead));
    assert_eq!(l.progress(), (1084 + 1024 + 4, 1084 + 4 + 1024));
    assert!(!l.done());
    let h = l.process(Ok(vec![])).expect("module complete");
    assert!(l.done());
    assert_eq!(h.patterns.len(), 1);
    assert_eq!(h.patterns[0].0[0].0, [0x10, 0, 0, 0]);
    assert_eq!(h.samples[0], vec![9, 8, 7, 6]);
    assert!(h.samples[1..].iter().all(|s| s.is_empty()));
}

#[test]
fn loader_stops_on_a_failed_read() {
    let mut l = MODAsyncLoader::new();
    assert!(l.process(Err(())).is_none());
    assert!(l.done());
    assert!(matches!(l.pending_read(), LoaderRequest::NoRead));
    assert!(l.process(Ok(vec![])).is_none());
    assert_eq!(l.progress(), (0, usize::MAX));
}

#[test]
fn progress_never_decreases_while_loading() {
    let b = module(&[1, 0], 0);
    let mut l = MODAsyncLoader::new();
    let mut last = 0;
    let steps: Vec<Vec<u8>> = vec![b[..100].to_vec(), b[100..].to_vec(), vec![0u8; 1000], vec![0u8; 1048]];
    for s in steps {
        l.process(Ok(s));
        let (done, total) = l.progress();
        assert!(done >= last);
        assert!(done <= total);
        last = done;
    }
    assert!(l.process(Ok(vec![])).is_some());
}

#[test]
fn a_failed_read_while_loading_the_header_ends_loading() {
    let mut l = MODAsyncLoader::new();
    assert!(l.process(Ok(vec![0u8; 10])).is_none());
    assert!(!l.done());
    assert!(l.process(Err(())).is_none());
    assert!(l.done());
}
