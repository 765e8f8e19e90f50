use usn_journal::windows_string::ToString;

#[test]
fn it_should_converted_correct() {
    let u16cs: Vec<u16> = vec![97, 98, 99, 0];
    let s = u16cs.to_string();
    assert_eq!(s.len(), 3);
    assert_eq!(s, "abc");
}

#[test]
fn text_stops_at_the_first_nul() {
    let u16cs: Vec<u16> = vec![104, 105, 0, 120, 121, 0];
    assert_eq!(u16cs.to_string(), "hi");
}

#[test]
fn text_without_nul_is_whole() {
    let u16cs: Vec<u16> = vec![104, 105];
    assert_eq!(u16cs.to_string(), "hi");

    let empty: Vec<u16> = vec![];
    assert_eq!(empty.to_string(), "");
}
