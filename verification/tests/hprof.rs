use heappy::hprof::{load_hprof, Hprof, HprofHead, IdSize};

fn dump(label: &str, id_bytes: u32, timestamp: u64, records: &[u8]) -> Vec<u8> {
    let mut data = label.as_bytes().to_vec();
    data.push(0);
    data.extend_from_slice(&id_bytes.to_be_bytes());
    data.extend_from_slice(&timestamp.to_be_bytes());
    data.extend_from_slice(records);
    data
}

#[test]
fn head_of_a_dump_is_read() {
    let data = dump("JAVA PROFILE 1.0.2", 8, 0x0123_4567_89ab_cdef, &[1, 2, 3]);
    let head = HprofHead {
        label: Some("JAVA PROFILE 1.0.2".to_string()),
        id_size: IdSize::U64,
        timestamp_millis: 0x0123_4567_89ab_cdef,
    };
    assert_eq!(load_hprof(&data), Ok(Hprof { head, records_at: 31 }));
    assert_eq!(data[31..].to_vec(), vec![1, 2, 3]);
    let head =
        HprofHead { label: Some(String::new()), id_size: IdSize::U32, timestamp_millis: 7 };
    assert_eq!(load_hprof(&dump("", 4, 7, &[])), Ok(Hprof { head, records_at: 13 }));
}

#[test]
fn label_that_is_no_text_is_left_out() {
    let mut data: Vec<u8> = vec![0xff, 0xfe];
    data.extend_from_slice(&dump("", 4, 7, &[]));
    let head = HprofHead { label: None, id_size: IdSize::U32, timestamp_millis: 7 };
    assert_eq!(load_hprof(&data), Ok(Hprof { head, records_at: 15 }));
}

#[test]
fn unknown_id_size_is_an_error() {
    assert_eq!(load_hprof(&dump("x", 16, 7, &[])), Err("unexpected size 16".to_string()));
    assert_eq!(
        load_hprof(&dump("x", u32::MAX, 7, &[])),
        Err("unexpected size 4294967295".to_string())
    );
}

#[test]
fn incomplete_head_is_an_error() {
    let error = || Err("incomplete heap dump header".to_string());
    assert_eq!(load_hprof(&[]), error());
    assert_eq!(load_hprof(b"no end of the label"), error());
    let whole = dump("label", 8, 7, &[]);
    for n in 0..whole.len() {
        assert_eq!(load_hprof(&whole[..n]), error());
    }
    assert_eq!(load_hprof(&dump("x", 16, 7, &[])[..13]), error());
}
