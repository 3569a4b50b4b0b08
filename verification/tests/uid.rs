use huddle::uid::Uid;

#[test]
fn test_one() {
    assert!(true);

    let creator = Uid::generate();
    println!("{}", creator.to_base64());
}

#[test]
fn test_two() {
    assert!(true);
}

#[test]
fn generated_ids_differ() {
    let ids: Vec<Uid> = (0..16).map(|_| Uid::generate()).collect();
    for i in 0..ids.len() {
        for j in 0..i {
            assert_ne!(ids[i], ids[j]);
        }
    }
}

#[test]
fn text_form_is_url_base64_of_the_bytes() {
    assert_eq!(Uid(0).to_base64(), "AAAAAAAAAAA");
    assert_eq!(Uid(1).to_base64(), "AAAAAAAAAAE");
    assert_eq!(Uid(u64::MAX).to_base64(), "__________8");
    assert_eq!(Uid(0x0123456789abcdef).to_base64(), "ASNFZ4mrze8");
    assert_eq!(Uid(0xfbff_bfff_fbff_bfff).to_base64(), "-_-___v_v_8");
}

#[test]
fn text_form_reads_back() {
    for id in [0, 1, 63, 64, 1 << 40, 0x0123456789abcdef, u64::MAX - 1, u64::MAX] {
        assert_eq!(Uid::from_base64(&Uid(id).to_base64()), Some(Uid(id)));
    }
    let id = Uid::generate();
    assert_eq!(Uid::from_base64(&id.to_base64()), Some(id));
}

#[test]
fn other_texts_are_no_ids() {
    for text in [
        "",
        "AAAAAAAAAA",
        "AAAAAAAAAAAA",
        "AAAAAAAAAAA=",
        "AAAAAAAAAAB",
        "AAAAA+AAAAA",
        "AAAAA/AAAAA",
        "AAAAA AAAAA",
        "AAAAAAAAAA\u{e9}",
    ] {
        assert_eq!(Uid::from_base64(text), None, "{text:?}");
    }
}
