use std::collections::HashMap;
use vstd::prelude::*;
use crate::text::chars_of;

verus! {

broadcast use vstd::std_specs::hash::group_hash_axioms;

/// Characters in strictly increasing order of their Unicode scalar value
/// (the order of `char`'s `Ord`): sorted and free of duplicates.
pub open spec fn strictly_sorted(s: Seq<char>) -> bool {
    forall|i: int, j: int| 0 <= i < j < s.len() ==> s[i] < s[j]
}

/// `ids` is the encoding of `text` over `vocab`: one id per character,
/// each naming the position of that character in the vocabulary.
pub open spec fn encodes(vocab: Seq<char>, text: Seq<char>, ids: Seq<usize>) -> bool {
    &&& ids.len() == text.len()
    &&& forall|i: int|
        0 <= i < ids.len() ==> (#[trigger] ids[i]) < vocab.len() && vocab[ids[i] as int] == text[i]
}

/// The characters that the ids name in `vocab`, in order.
pub open spec fn decoded(vocab: Seq<char>, ids: Seq<usize>) -> Seq<char> {
    ids.map_values(|id: usize| vocab[id as int])
}

/// Every character of `text` occurs in `vocab`.
pub open spec fn covers(vocab: Seq<char>, text: Seq<char>) -> bool {
    forall|i: int| 0 <= i < text.len() ==> vocab.contains(#[trigger] text[i])
}

/// Every id is a valid position in `vocab`.
pub open spec fn in_range(vocab: Seq<char>, ids: Seq<usize>) -> bool {
    forall|i: int| 0 <= i < ids.len() ==> (#[trigger] ids[i]) < vocab.len()
}

/// Character-level tokenizer: each distinct character of the training text
/// is one token, numbered by the character's rank in sorted order.
#[derive(Debug)]
pub struct Tokenizer {
    char_to_idx: HashMap<u32, usize>,
    idx_to_char: Vec<char>,
}

impl View for Tokenizer {
    type V = Seq<char>;

    /// The vocabulary: the token with id `i` is the character at position `i`.
    closed spec fn view(&self) -> Seq<char> {
        self.idx_to_char@
    }
}

/// A character's scalar value identifies it.
proof fn lemma_char_key(a: char, b: char)
    ensures
        (a as u32 == b as u32) <==> a == b,
{
}

/// `m` maps the scalar value of each character of `v` to its position, and
/// holds nothing else.
spec fn indexes(m: Map<u32, usize>, v: Seq<char>, n: int) -> bool {
    &&& forall|i: int| 0 <= i < n ==> #[trigger] m.contains_key(v[i] as u32) && m[v[i] as u32] == i
    &&& forall|k: u32| #[trigger] m.contains_key(k) ==> m[k] < n && v[m[k] as int] as u32 == k
}

impl Tokenizer {
    #[verifier::type_invariant]
    spec fn well_formed(&self) -> bool {
        &&& strictly_sorted(self.idx_to_char@)
        &&& indexes(self.char_to_idx@, self.idx_to_char@, self.idx_to_char@.len() as int)
    }

    /// Builds the vocabulary from `text`: its distinct characters, sorted.
    pub fn from_text(text: &str) -> (tok: Self)
        ensures
            strictly_sorted(tok@),
            forall|c: char| tok@.contains(c) <==> text@.contains(c),
    {
        let input = chars_of(text);
        let mut chars: Vec<char> = Vec::new();
        let mut i: usize = 0;
        while i < input.len()
            invariant
                i <= input@.len(),
                input@ == text@,
                strictly_sorted(chars@),
                forall|c: char| chars@.contains(c) <==> input@.take(i as int).contains(c),
            decreases input@.len() - i,
        {
            let c = input[i];
            let mut j: usize = 0;
            while j < chars.len() && chars[j] < c
                invariant
                    j <= chars@.len(),
                    forall|k: int| 0 <= k < j ==> chars@[k] < c,
                decreases chars@.len() - j,
            {
                j += 1;
            }
            proof {
                assert(input@.take(i + 1) == input@.take(i as int).push(c));
            }
            if j < chars.len() && chars[j] == c {
                proof {
                    assert forall|x: char| chars@.contains(x) <==> input@.take(i + 1).contains(x) by {
                        if x == c {
                            assert(chars@[j as int] == c);
                        }
                        if input@.take(i + 1).contains(x) && x != c {
                            let k = choose|k: int| 0 <= k < i + 1 && #[trigger] input@.take(i + 1)[k] == x;
                            assert(input@.take(i as int)[k] == x);
                        }
                    }
                }
            } else {
                let ghost old_chars = chars@;
                chars.insert(j, c);
                proof {
                    assert forall|a: int, b: int| 0 <= a < b < chars@.len() implies chars@[a] < chars@[b] by {
                        if j < old_chars.len() {
                            assert(c <= old_chars[j as int]);
                            assert(c != old_chars[j as int]);
                        }
                    }
                    assert forall|x: char| chars@.contains(x) <==> input@.take(i + 1).contains(x) by {
                        if chars@.contains(x) {
                            let k = choose|k: int| 0 <= k < chars@.len() && #[trigger] chars@[k] == x;
                            if x != c {
                                if k < j {
                                    assert(old_chars[k] == x);
                                } else {
                                    assert(old_chars[k - 1] == x);
                                }
                                assert(old_chars.contains(x));
                                let m = choose|m: int| 0 <= m < i && #[trigger] input@.take(i as int)[m] == x;
                                assert(input@.take(i + 1)[m] == x);
                            } else {
                                assert(input@.take(i + 1)[i as int] == c);
                            }
                        }
                        if input@.take(i + 1).contains(x) {
                            if x == c {
                                assert(chars@[j as int] == c);
                            } else {
                                let m = choose|m: int| 0 <= m < i + 1 && #[trigger] input@.take(i + 1)[m] == x;
                                assert(input@.take(i as int)[m] == x);
                                assert(old_chars.contains(x));
                                let k = choose|k: int| 0 <= k < old_chars.len() && #[trigger] old_chars[k] == x;
                                if k < j {
                                    assert(chars@[k] == x);
                                } else {
                                    assert(chars@[k + 1] == x);
                                }
                            }
                        }
                    }
                }
            }
            i += 1;
        }
        proof {
            assert(input@.take(input@.len() as int) == input@);
        }
        let mut char_to_idx: HashMap<u32, usize> = HashMap::new();
        let mut k: usize = 0;
        while k < chars.len()
            invariant
                k <= chars@.len(),
                strictly_sorted(chars@),
                indexes(char_to_idx@, chars@, k as int),
            decreases chars@.len() - k,
        {
            let ghost old_map = char_to_idx@;
            char_to_idx.insert(chars[k] as u32, k);
            proof {
                assert forall|key: u32| #[trigger] char_to_idx@.contains_key(key) implies char_to_idx@[key]
                    < k + 1 && chars@[char_to_idx@[key] as int] as u32 == key by {
                    if key != chars@[k as int] as u32 {
                        assert(old_map.contains_key(key));
                    }
                }
                assert forall|a: int| 0 <= a < k + 1 implies #[trigger] char_to_idx@.contains_key(
                    chars@[a] as u32,
                ) && char_to_idx@[chars@[a] as u32] == a by {
                    if a < k {
                        assert(chars@[a] < chars@[k as int]);
                        lemma_char_key(chars@[a], chars@[k as int]);
                    }
                }
            }
            k += 1;
        }
        Tokenizer { char_to_idx, idx_to_char: chars }
    }

    /// Encodes each character of `text` as its token id.
    pub fn encode(&self, text: &str) -> (ids: Vec<usize>)
        requires
            covers(self@, text@),
        ensures
            encodes(self@, text@, ids@),
            strictly_sorted(self@),
    {
        proof {
            use_type_invariant(self);
        }
        let input = chars_of(text);
        let mut ids: Vec<usize> = Vec::new();
        let mut i: usize = 0;
        while i < input.len()
            invariant
                i <= input@.len(),
                input@ == text@,
                covers(self@, text@),
                strictly_sorted(self.idx_to_char@),
                indexes(self.char_to_idx@, self.idx_to_char@, self.idx_to_char@.len() as int),
                ids@.len() == i,
                forall|k: int|
                    0 <= k < i ==> (#[trigger] ids@[k]) < self@.len() && self@[ids@[k] as int]
                        == text@[k],
            decreases input@.len() - i,
        {
            let c = input[i];
            assert(self@.contains(text@[i as int]));
            let ghost p = choose|p: int| 0 <= p < self@.len() && #[trigger] self@[p] == c;
            assert(self.char_to_idx@.contains_key(self.idx_to_char@[p] as u32));
            let key: u32 = c as u32;
            let idx = *self.char_to_idx.get(&key).unwrap();
            ids.push(idx);
            i += 1;
        }
        ids
    }

    /// Decodes token ids back into the characters they name.
    pub fn decode(&self, ids: &[usize]) -> (s: String)
        requires
            in_range(self@, ids@),
        ensures
            s@ == decoded(self@, ids@),
            strictly_sorted(self@),
    {
        proof {
            use_type_invariant(self);
        }
        let mut s = String::new();
        let mut i: usize = 0;
        while i < ids.len()
            invariant
                i <= ids@.len(),
                in_range(self@, ids@),
                s@ == decoded(self@, ids@.take(i as int)),
            decreases ids@.len() - i,
        {
            let id = ids[i];
            assert(id < self@.len());
            s.push(self.idx_to_char[id]);
            proof {
                assert(ids@.take(i + 1) == ids@.take(i as int).push(id));
                assert(decoded(self@, ids@.take(i + 1)) =~= decoded(self@, ids@.take(i as int)).push(
                    self@[id as int],
                ));
            }
            i += 1;
        }
        proof {
            assert(ids@.take(ids@.len() as int) == ids@);
        }
        s
    }

    /// Number of tokens in the vocabulary.
    pub fn vocab_size(&self) -> (n: usize)
        ensures
            n == self@.len(),
    {
        self.idx_to_char.len()
    }

    /// The vocabulary, indexed by token id.
    pub fn idx_to_char(&self) -> (v: &Vec<char>)
        ensures
            v@ == self@,
    {
        &self.idx_to_char
    }
}

/// Decoding an encoding gives the text back: `decode(encode(t)) == t`.
pub proof fn lemma_decode_encode(vocab: Seq<char>, text: Seq<char>, ids: Seq<usize>)
    requires
        encodes(vocab, text, ids),
    ensures
        decoded(vocab, ids) == text,
{
    assert(decoded(vocab, ids) =~= text);
}

/// Over a sorted, duplicate-free vocabulary a text has exactly one encoding.
pub proof fn lemma_encoding_unique(vocab: Seq<char>, text: Seq<char>, a: Seq<usize>, b: Seq<usize>)
    requires
        strictly_sorted(vocab),
        encodes(vocab, text, a),
        encodes(vocab, text, b),
    ensures
        a == b,
{
    assert forall|i: int| 0 <= i < a.len() implies a[i] == b[i] by {
        assert(a[i] < vocab.len() && b[i] < vocab.len());
        if a[i] < b[i] {
            assert(vocab[a[i] as int] < vocab[b[i] as int]);
        } else if b[i] < a[i] {
            assert(vocab[b[i] as int] < vocab[a[i] as int]);
        }
    }
    assert(a =~= b);
}

/// Encoding the decoding of valid ids gives the ids back:
/// `encode(decode(ids)) == ids`.
pub proof fn lemma_encode_decode(vocab: Seq<char>, ids: Seq<usize>, again: Seq<usize>)
    requires
        strictly_sorted(vocab),
        in_range(vocab, ids),
        encodes(vocab, decoded(vocab, ids), again),
    ensures
        again == ids,
{
    assert(encodes(vocab, decoded(vocab, ids), ids));
    lemma_encoding_unique(vocab, decoded(vocab, ids), again, ids);
}

/// Token ids follow the order of the characters: for any two positions of
/// an encoded text, `text[i] < text[j]` exactly when `ids[i] < ids[j]`, and
/// equal characters get equal ids.
pub proof fn lemma_ids_follow_char_order(vocab: Seq<char>, text: Seq<char>, ids: Seq<usize>)
    requires
        strictly_sorted(vocab),
        encodes(vocab, text, ids),
    ensures
        forall|i: int, j: int|
            0 <= i < text.len() && 0 <= j < text.len() ==> ((text[i] < text[j]) <==> (ids[i]
                < ids[j])) && ((text[i] == text[j]) <==> (ids[i] == ids[j])),
{
    assert forall|i: int, j: int| 0 <= i < text.len() && 0 <= j < text.len() implies ((text[i]
        < text[j]) <==> (ids[i] < ids[j])) && ((text[i] == text[j]) <==> (ids[i] == ids[j])) by {
        assert(ids[i] < vocab.len() && ids[j] < vocab.len());
        if ids[i] < ids[j] {
            assert(vocab[ids[i] as int] < vocab[ids[j] as int]);
        } else if ids[j] < ids[i] {
            assert(vocab[ids[j] as int] < vocab[ids[i] as int]);
        }
    }
}

/// The vocabulary built from a text has one token per distinct character.
pub proof fn lemma_vocab_size_counts_distinct(vocab: Seq<char>, text: Seq<char>)
    requires
        strictly_sorted(vocab),
        forall|c: char| vocab.contains(c) <==> text.contains(c),
    ensures
        vocab.len() == text.to_set().len(),
{
    assert(vocab.no_duplicates()) by {
        assert forall|i: int, j: int| 0 <= i < vocab.len() && 0 <= j < vocab.len() && i != j implies vocab[i]
            != vocab[j] by {
            if i < j {
                assert(vocab[i] < vocab[j]);
            } else {
                assert(vocab[j] < vocab[i]);
            }
        }
    }
    vocab.unique_seq_to_set();
    assert(vocab.to_set() =~= text.to_set());
}

/// A sorted, duplicate-free vocabulary is determined by the characters it
/// holds: two such vocabularies over the same characters are equal, so
/// building a tokenizer from a text always numbers its characters the same
/// way.
pub proof fn lemma_vocab_determined(a: Seq<char>, b: Seq<char>)
    requires
        strictly_sorted(a),
        strictly_sorted(b),
        forall|c: char| a.contains(c) <==> b.contains(c),
    ensures
        a == b,
    decreases a.len(),
{
    if a.len() == 0 {
        if b.len() > 0 {
            assert(b.contains(b[0]));
        }
        assert(a =~= b);
    } else {
        assert(a.contains(a[0]));
        assert(b.len() > 0);
        assert(b.contains(b[0]));
        let ka = choose|k: int| 0 <= k < b.len() && #[trigger] b[k] == a[0];
        let kb = choose|k: int| 0 <= k < a.len() && #[trigger] a[k] == b[0];
        if ka > 0 {
            assert(b[0] < b[ka]);
        }
        if kb > 0 {
            assert(a[0] < a[kb]);
        }
        assert(a[0] == b[0]);
        let ta = a.drop_first();
        let tb = b.drop_first();
        assert forall|c: char| ta.contains(c) <==> tb.contains(c) by {
            if ta.contains(c) {
                let k = choose|k: int| 0 <= k < ta.len() && #[trigger] ta[k] == c;
                assert(a[k + 1] == c);
                assert(a[0] < c);
                assert(b.contains(c));
                let m = choose|m: int| 0 <= m < b.len() && #[trigger] b[m] == c;
                assert(m != 0);
                assert(tb[m - 1] == c);
            }
            if tb.contains(c) {
                let k = choose|k: int| 0 <= k < tb.len() && #[trigger] tb[k] == c;
                assert(b[k + 1] == c);
                assert(b[0] < c);
                assert(a.contains(c));
                let m = choose|m: int| 0 <= m < a.len() && #[trigger] a[m] == c;
                assert(m != 0);
                assert(ta[m - 1] == c);
            }
        }
        lemma_vocab_determined(ta, tb);
        assert forall|i: int| 0 <= i < a.len() implies a[i] == b[i] by {
            if i > 0 {
                assert(a[i] == ta[i - 1]);
                assert(b[i] == tb[i - 1]);
            }
        }
        assert(a =~= b);
    }
}

impl Clone for Tokenizer {
    fn clone(&self) -> (r: Self)
        ensures
            r@ == self@,
    {
        proof {
            use_type_invariant(self);
        }
        let idx_to_char = self.idx_to_char.clone();
        proof {
            assert(idx_to_char@ =~= self.idx_to_char@);
        }
        Tokenizer { char_to_idx: self.char_to_idx.clone(), idx_to_char }
    }
}

} // verus!
