use plandb::tokenizer::Tokenizer;

#[test]
fn test_roundtrip() {
    let text = "hello world";
    let tok = Tokenizer::from_text(text);
    let encoded = tok.encode(text);
    let decoded = tok.decode(&encoded);
    assert_eq!(decoded, text);
}

#[test]
fn test_vocab_size() {
    let tok = Tokenizer::from_text("aabbc");
    assert_eq!(tok.vocab_size(), 3); // 'a', 'b', 'c'
}

#[test]
fn test_sorted_determinism() {
    let tok = Tokenizer::from_text("zab");
    assert_eq!(tok.idx_to_char(), &vec!['a', 'b', 'z']);
    assert_eq!(tok.encode("a"), vec![0]);
    assert_eq!(tok.encode("z"), vec![2]);
}

#[test]
fn test_empty_text() {
    let tok = Tokenizer::from_text("");
    assert_eq!(tok.vocab_size(), 0);
    assert_eq!(tok.encode(""), Vec::<usize>::new());
    assert_eq!(tok.decode(&[]), String::new());
}

#[test]
fn vocab_counts_distinct_characters_including_unicode() {
    let tok = Tokenizer::from_text("héllo wörld héllo");
    assert_eq!(tok.idx_to_char(), &vec![' ', 'd', 'h', 'l', 'o', 'r', 'w', 'é', 'ö']);
    assert_eq!(tok.vocab_size(), 9);
}

#[test]
fn encode_numbers_characters_by_sorted_rank() {
    let tok = Tokenizer::from_text("banana");
    assert_eq!(tok.idx_to_char(), &vec!['a', 'b', 'n']);
    assert_eq!(tok.encode("banana"), vec![1, 0, 2, 0, 2, 0]);
    assert_eq!(tok.encode("nab"), vec![2, 0, 1]);
}

#[test]
fn encode_of_decode_gives_ids_back() {
    let tok = Tokenizer::from_text("the quick brown fox");
    let ids = vec![0, 3, 5, 1, 1, 7];
    let text = tok.decode(&ids);
    assert_eq!(tok.encode(&text), ids);
}

#[test]
fn decode_names_vocabulary_entries() {
    let tok = Tokenizer::from_text("cab");
    assert_eq!(tok.decode(&[2, 0, 1, 1]), "cabb");
}

#[test]
fn equal_texts_give_equal_vocabularies() {
    let a = Tokenizer::from_text("mississippi");
    let b = Tokenizer::from_text("pims");
    assert_eq!(a.idx_to_char(), b.idx_to_char());
    assert_eq!(a.encode("sip"), b.encode("sip"));
}

#[test]
fn clone_keeps_vocabulary() {
    let a = Tokenizer::from_text("xyzzy");
    let b = a.clone();
    assert_eq!(a.idx_to_char(), b.idx_to_char());
    assert_eq!(b.encode("zyx"), vec![2, 1, 0]);
}
