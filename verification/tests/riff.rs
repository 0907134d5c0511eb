use byteorder::{LittleEndian, WriteBytesExt};

use immeta::common::riff::{ChunkId, RiffListChunk, RiffReader};
use immeta::types::Error;

fn build(parts: &[&[u8]]) -> Vec<u8> {
    let mut data = Vec::new();
    for part in parts {
        data.extend_from_slice(part);
    }
    data
}

fn n(n: u32) -> [u8; 4] {
    let mut r = [0u8; 4];
    (&mut r as &mut [u8]).write_u32::<LittleEndian>(n).unwrap();
    r
}

fn check_next_chunk<'a>(cl: &mut RiffListChunk<'a>, id: ChunkId, len: u32, data: &[u8]) {
    let chunk = cl.next();
    let mut chunk = chunk.unwrap().unwrap();

    assert_eq!(chunk.chunk_id(), id);
    assert_eq!(chunk.len(), len);
    let contents = chunk.contents().read_to_vec();
    assert_eq!(&*contents, data);
    assert!(!chunk.can_have_subchunks());
}

#[test]
fn test_invalid_header() {
    let data: &[u8] = b"XXXX\x04abcd";

    let mut r = RiffReader::new(data.to_vec());

    let root = r.root();
    assert!(root.is_err());
}

#[test]
fn test_flat_chunks() {
    let data = build(&[
        b"RIFF", &n(37), b"abcd",
        b"A   ", &n(4), b"1234",
        b"B   ", &n(5), b"56789",
    ]);

    let mut r = RiffReader::new(data);

    let mut root = r.root().unwrap();

    assert_eq!(root.chunk_id(), ChunkId(*b"RIFF"));
    assert_eq!(root.len(), 37);
    assert_eq!(root.chunk_type(), ChunkId(*b"abcd"));

    check_next_chunk(&mut root, ChunkId(*b"A   "), 4, b"1234");
    check_next_chunk(&mut root, ChunkId(*b"B   "), 5, b"56789");

    assert!(root.next().is_none());
}

#[test]
fn test_nested_chunks() {
    let data = build(&[
        b"RIFF", &n(77), b"abcd",
        b"A   ", &n(1), b"z",
        b"LIST", &n(56), b"wxyz",
            b" B  ", &n(3), b"123",
            b"LIST", &n(22), b"hi  ",
                b"  C ", &n(0),
                b"   D", &n(2), b"op",
            b"E   ", &n(3), b"fuz",
    ]);

    let mut r = RiffReader::new(data);

    let mut root = r.root().unwrap();

    assert_eq!(root.chunk_id(), ChunkId(*b"RIFF"));
    assert_eq!(root.len(), 77);
    assert_eq!(root.chunk_type(), ChunkId(*b"abcd"));

    check_next_chunk(&mut root, ChunkId(*b"A   "), 1, b"z");

    {
        let chunk = root.next().unwrap().unwrap();
        assert_eq!(chunk.chunk_id(), ChunkId(*b"LIST"));
        assert_eq!(chunk.len(), 56);
        assert!(chunk.can_have_subchunks());

        let chunk = chunk.into_list();
        assert!(chunk.is_ok());
        let mut chunk = chunk.ok().unwrap().unwrap();

        check_next_chunk(&mut chunk, ChunkId(*b" B  "), 3, b"123");

        {
            let sublist = chunk.next().unwrap().unwrap();
            assert_eq!(sublist.chunk_id(), ChunkId(*b"LIST"));
            assert_eq!(sublist.len(), 22);
            assert!(sublist.can_have_subchunks());

            let sublist = sublist.into_list();
            assert!(sublist.is_ok());
            let mut sublist = sublist.ok().unwrap().unwrap();

            check_next_chunk(&mut sublist, ChunkId(*b"  C "), 0, b"");
            check_next_chunk(&mut sublist, ChunkId(*b"   D"), 2, b"op");
        }

        check_next_chunk(&mut chunk, ChunkId(*b"E   "), 3, b"fuz");

        assert!(chunk.next().is_none());
    }

    assert!(root.next().is_none());
}

#[test]
fn test_skip_chunk_data() {
    let data = build(&[
        b"RIFF", &n(77), b"abcd",
        b"A   ", &n(10), b"abcdefghij",
        b" B  ", &n(12), b"123456789012",
        b"  C ", &n(8), b"ABCDEFGH",
    ]);

    let mut r = RiffReader::new(data);

    let mut root = r.root().unwrap();

    {
        let mut chunk = root.next().unwrap().unwrap();
        assert_eq!(chunk.chunk_id(), ChunkId(*b"A   "));
        assert_eq!(chunk.len(), 10);
        assert_eq!(chunk.contents().take(5).read_to_vec(), b"abcde".to_owned());
    }

    {
        let chunk = root.next().unwrap().unwrap();
        assert_eq!(chunk.chunk_id(), ChunkId(*b" B  "));
        assert_eq!(chunk.len(), 12);
    }

    {
        let mut chunk = root.next().unwrap().unwrap();
        assert_eq!(chunk.chunk_id(), ChunkId(*b"  C "));
        assert_eq!(chunk.len(), 8);
        assert_eq!(chunk.contents().read_to_vec(), b"ABCDEFGH".to_owned());
    }

    assert!(root.next().is_none());
}

#[test]
fn payload_never_exceeds_declared_length() {
    let data = build(&[
        b"RIFF", &n(24), b"abcd",
        b"A   ", &n(3), b"xyz",
        b"B   ", &n(1), b"!",
    ]);
    let mut r = RiffReader::new(data);
    let mut root = r.root().unwrap();

    let mut chunk = root.next().unwrap().unwrap();
    let mut buf = [0u8; 16];
    assert_eq!(chunk.contents().read(&mut buf), 3);
    assert_eq!(&buf[..3], b"xyz");
    assert_eq!(&buf[3..], &[0u8; 13]);
    assert_eq!(chunk.contents().read(&mut buf), 0);
    assert_eq!(chunk.contents().read_to_vec(), Vec::<u8>::new());
    assert_eq!(chunk.contents().skip_exact_0(100), 0);

    let chunk = root.next().unwrap().unwrap();
    assert_eq!(chunk.chunk_id(), ChunkId(*b"B   "));
}

#[test]
fn reads_come_in_pieces() {
    let data = build(&[b"RIFF", &n(17), b"abcd", b"A   ", &n(5), b"12345"]);
    let mut r = RiffReader::new(data);
    let mut root = r.root().unwrap();
    let mut chunk = root.next().unwrap().unwrap();

    let mut two = [0u8; 2];
    assert_eq!(chunk.contents().read(&mut two), 2);
    assert_eq!(&two, b"12");
    assert_eq!(chunk.contents().skip_exact_0(1), 1);
    assert_eq!(chunk.contents().read(&mut two), 2);
    assert_eq!(&two, b"45");
    assert_eq!(chunk.contents().read(&mut two), 0);
    assert_eq!(&two, b"45");
}

#[test]
fn child_is_cut_off_where_its_list_ends() {
    let data = build(&[b"RIFF", &n(15), b"abcd", b"A   ", &n(100), b"123456"]);
    let mut r = RiffReader::new(data);
    let mut root = r.root().unwrap();
    let mut chunk = root.next().unwrap().unwrap();
    assert_eq!(chunk.len(), 100);
    assert_eq!(chunk.contents().read_to_vec(), b"123".to_vec());
}

#[test]
fn end_of_list_is_final() {
    let data = build(&[b"RIFF", &n(16), b"abcd", b"A   ", &n(4), b"1234"]);
    let mut r = RiffReader::new(data);
    let mut root = r.root().unwrap();

    check_next_chunk(&mut root, ChunkId(*b"A   "), 4, b"1234");
    assert!(root.next().is_none());
    assert!(root.next().is_none());
    assert!(root.next().is_none());
}

#[test]
fn end_of_list_is_final_after_a_partly_read_child() {
    let data = build(&[b"RIFF", &n(16), b"abcd", b"A   ", &n(4), b"1234"]);
    let mut r = RiffReader::new(data);
    let mut root = r.root().unwrap();

    {
        let mut chunk = root.next().unwrap().unwrap();
        let mut one = [0u8; 1];
        assert_eq!(chunk.contents().read(&mut one), 1);
    }
    assert!(root.next().is_none());
    assert!(root.next().is_none());
}

#[test]
fn empty_list_has_no_children() {
    let data = build(&[b"RIFF", &n(4), b"abcd"]);
    let mut r = RiffReader::new(data);
    let mut root = r.root().unwrap();
    assert_eq!(root.chunk_type(), ChunkId(*b"abcd"));
    assert!(root.next().is_none());
    assert!(root.next().is_none());
}

#[test]
fn into_list_rejects_other_tags_without_consuming() {
    let data = build(&[b"RIFF", &n(16), b"abcd", b"A   ", &n(4), b"1234"]);
    let mut r = RiffReader::new(data);
    let mut root = r.root().unwrap();

    let chunk = root.next().unwrap().unwrap();
    assert!(!chunk.can_have_subchunks());
    let mut chunk = match chunk.into_list() {
        Ok(_) => panic!("a chunk tagged `A   ` is no list"),
        Err(chunk) => chunk,
    };
    assert_eq!(chunk.chunk_id(), ChunkId(*b"A   "));
    assert_eq!(chunk.len(), 4);
    assert_eq!(chunk.contents().read_to_vec(), b"1234".to_vec());
}

#[test]
fn into_list_rejects_a_touched_chunk_without_consuming() {
    let data = build(&[
        b"RIFF", &n(27), b"abcd",
        b"LIST", &n(15), b"wxyz", b"A   ", &n(3), b"123",
    ]);
    let mut r = RiffReader::new(data);
    let mut root = r.root().unwrap();

    let mut chunk = root.next().unwrap().unwrap();
    assert!(chunk.can_have_subchunks());
    let _ = chunk.contents();
    assert!(!chunk.can_have_subchunks());
    let mut chunk = match chunk.into_list() {
        Ok(_) => panic!("a chunk whose payload was handed out is no list"),
        Err(chunk) => chunk,
    };
    assert_eq!(chunk.chunk_id(), ChunkId(*b"LIST"));
    assert_eq!(chunk.contents().read_to_vec(), b"wxyzA   \x03\x00\x00\x00123".to_vec());
}

#[test]
fn root_tag_is_a_container_tag_for_children_too() {
    let data = build(&[
        b"RIFF", &n(24), b"abcd",
        b"RIFF", &n(12), b"wxyz", b"A   ", &n(0),
    ]);
    let mut r = RiffReader::new(data);
    let mut root = r.root().unwrap();
    let chunk = root.next().unwrap().unwrap();
    assert!(chunk.can_have_subchunks());
    let mut list = chunk.into_list().ok().unwrap().unwrap();
    assert_eq!(list.chunk_id(), ChunkId(*b"RIFF"));
    assert_eq!(list.len(), 12);
    assert_eq!(list.chunk_type(), ChunkId(*b"wxyz"));
    check_next_chunk(&mut list, ChunkId(*b"A   "), 0, b"");
    assert!(list.next().is_none());
}

#[test]
fn unread_nested_list_is_skipped() {
    let data = build(&[
        b"RIFF", &n(39), b"abcd",
        b"LIST", &n(15), b"wxyz", b"A   ", &n(3), b"123",
        b"B   ", &n(4), b"4567",
    ]);
    let mut r = RiffReader::new(data);
    let mut root = r.root().unwrap();
    {
        let list = root.next().unwrap().unwrap().into_list().ok().unwrap().unwrap();
        assert_eq!(list.chunk_type(), ChunkId(*b"wxyz"));
    }
    check_next_chunk(&mut root, ChunkId(*b"B   "), 4, b"4567");
    assert!(root.next().is_none());
}

#[test]
fn wrong_root_tag_is_an_invalid_format() {
    let data = build(&[b"XXXX", &n(4), b"abcd"]);
    let mut r = RiffReader::new(data);
    match r.root() {
        Err(e) => assert_eq!(e, Error::InvalidFormat("RIFF file header is invalid".to_string())),
        Ok(_) => panic!("`XXXX` is not the root tag"),
    };
}

#[test]
fn list_tag_does_not_open_a_file() {
    let data = build(&[b"LIST", &n(4), b"abcd"]);
    let mut r = RiffReader::new(data);
    match r.root() {
        Err(e) => assert_eq!(e, Error::InvalidFormat("RIFF file header is invalid".to_string())),
        Ok(_) => panic!("`LIST` is not the root tag"),
    };
}

#[test]
fn partial_root_tag_is_an_unexpected_end() {
    let mut r = RiffReader::new(b"RI".to_vec());
    match r.root() {
        Err(e) => assert_eq!(e, Error::UnexpectedEndOfFile(None)),
        Ok(_) => panic!("two bytes are no header"),
    };
}

#[test]
fn empty_input_has_no_root() {
    let mut r = RiffReader::new(Vec::new());
    match r.root() {
        Err(e) => assert_eq!(e, Error::UnexpectedEndOfFile(None)),
        Ok(_) => panic!("no bytes are no header"),
    };
}

#[test]
fn partial_root_length_is_an_unexpected_end() {
    let mut r = RiffReader::new(b"RIFF\x04\x00".to_vec());
    match r.root() {
        Err(e) => assert_eq!(e, Error::UnexpectedEndOfFile(None)),
        Ok(_) => panic!("six bytes are no header"),
    };
}

#[test]
fn missing_type_tag_names_the_chunk() {
    let data = build(&[b"RIFF", &n(4), b"ab"]);
    let mut r = RiffReader::new(data);
    match r.root() {
        Err(e) => assert_eq!(
            e,
            Error::UnexpectedEndOfFile(Some("when reading chunk type of chunk RIFF".to_string()))
        ),
        Ok(_) => panic!("two bytes are no type tag"),
    };
}

#[test]
fn type_tag_beyond_declared_length_is_an_unexpected_end() {
    let data = build(&[b"RIFF", &n(3), b"abcd"]);
    let mut r = RiffReader::new(data);
    match r.root() {
        Err(e) => assert_eq!(
            e,
            Error::UnexpectedEndOfFile(Some("when reading chunk type of chunk RIFF".to_string()))
        ),
        Ok(_) => panic!("a payload of three bytes holds no type tag"),
    };
}

#[test]
fn nested_list_without_type_tag_names_the_chunk() {
    let data = build(&[b"RIFF", &n(14), b"abcd", b"LIST", &n(2), b"wx"]);
    let mut r = RiffReader::new(data);
    let mut root = r.root().unwrap();
    let chunk = root.next().unwrap().unwrap();
    match chunk.into_list() {
        Ok(Err(e)) => assert_eq!(
            e,
            Error::UnexpectedEndOfFile(Some("when reading chunk type of chunk LIST".to_string()))
        ),
        _ => panic!("a payload of two bytes holds no type tag"),
    };
    assert!(root.next().is_none());
}

#[test]
fn partial_child_tag_differs_from_clean_end() {
    let data = build(&[b"RIFF", &n(18), b"abcd", b"A   ", &n(4), b"1234", b"B "]);
    let mut r = RiffReader::new(data);
    let mut root = r.root().unwrap();
    check_next_chunk(&mut root, ChunkId(*b"A   "), 4, b"1234");
    match root.next() {
        Some(Err(e)) => assert_eq!(e, Error::UnexpectedEndOfFile(None)),
        _ => panic!("two bytes are no header"),
    };
}

#[test]
fn partial_child_length_is_an_unexpected_end() {
    let data = build(&[b"RIFF", &n(22), b"abcd", b"A   ", &n(4), b"1234", b"B   \x01\x00"]);
    let mut r = RiffReader::new(data);
    let mut root = r.root().unwrap();
    check_next_chunk(&mut root, ChunkId(*b"A   "), 4, b"1234");
    match root.next() {
        Some(Err(e)) => assert_eq!(e, Error::UnexpectedEndOfFile(None)),
        _ => panic!("six bytes are no header"),
    };
}

#[test]
fn truncated_skip_is_an_unexpected_end() {
    let data = build(&[b"RIFF", &n(100), b"abcd", b"A   ", &n(10), b"1234"]);
    let mut r = RiffReader::new(data);
    let mut root = r.root().unwrap();
    {
        let chunk = root.next().unwrap().unwrap();
        assert_eq!(chunk.len(), 10);
    }
    match root.next() {
        Some(Err(e)) => assert_eq!(e, Error::UnexpectedEndOfFile(None)),
        _ => panic!("the payload of `A   ` is cut short"),
    };
    match root.next() {
        Some(Err(e)) => assert_eq!(e, Error::UnexpectedEndOfFile(None)),
        _ => panic!("the payload of `A   ` is still cut short"),
    };
}

#[test]
fn declared_length_bounds_the_list() {
    let data = build(&[
        b"RIFF", &n(16), b"abcd",
        b"A   ", &n(4), b"1234",
        b"B   ", &n(4), b"5678",
    ]);
    let mut r = RiffReader::new(data);
    let mut root = r.root().unwrap();
    check_next_chunk(&mut root, ChunkId(*b"A   "), 4, b"1234");
    assert!(root.next().is_none());
}

#[test]
fn length_is_little_endian() {
    let data = build(&[b"RIFF", &[0x04, 0x03, 0x02, 0x01], b"abcd", b"A   ", &[0x00, 0x01, 0x00, 0x00]]);
    let mut r = RiffReader::new(data);
    let mut root = r.root().unwrap();
    assert_eq!(root.len(), 0x0102_0304);
    let chunk = root.next().unwrap().unwrap();
    assert_eq!(chunk.len(), 256);
}

#[test]
fn reader_can_open_a_second_container() {
    let data = build(&[
        b"RIFF", &n(4), b"abcd",
        b"RIFF", &n(12), b"wxyz", b"A   ", &n(0),
    ]);
    let mut r = RiffReader::new(data);
    {
        let mut first = r.root().unwrap();
        assert_eq!(first.chunk_type(), ChunkId(*b"abcd"));
        assert!(first.next().is_none());
    }
    let mut second = r.root().unwrap();
    assert_eq!(second.chunk_type(), ChunkId(*b"wxyz"));
    check_next_chunk(&mut second, ChunkId(*b"A   "), 0, b"");
}

#[test]
fn chunk_id_as_text() {
    assert_eq!(ChunkId(*b"RIFF").as_str(), Some("RIFF"));
    assert_eq!(ChunkId(*b"RIFF").as_bytes(), b"RIFF");
    assert_eq!(ChunkId(*b"RIFF").to_string(), "RIFF");
    assert_eq!(ChunkId([0xff, 0, 1, 200]).as_str(), None);
    assert_eq!(ChunkId([0xff, 0, 1, 200]).as_bytes(), &[0xff, 0, 1, 200]);
    assert_eq!(ChunkId([0xff, 0, 1, 200]).to_string(), "[255, 0, 1, 200]");
    assert_eq!(ChunkId([0xc3, 0xa9, 0x41, 0x42]).as_str(), Some("\u{e9}AB"));
}

#[test]
fn chunk_id_equality_is_bytewise() {
    assert_eq!(ChunkId(*b"RIFF"), ChunkId([0x52, 0x49, 0x46, 0x46]));
    assert_ne!(ChunkId(*b"RIFF"), ChunkId(*b"RIFf"));
    assert_ne!(ChunkId(*b"RIFF"), ChunkId(*b"LIFF"));
    assert!(ChunkId(*b"RIFF").is_root());
    assert!(!ChunkId(*b"RIFF").is_list());
    assert!(ChunkId(*b"LIST").is_list());
    assert!(!ChunkId(*b"LIST").is_root());
    assert!(!ChunkId(*b"list").is_list());
}
