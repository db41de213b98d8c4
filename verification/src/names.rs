//! Names, compared without regard to ASCII case: a name is folded by taking
//! its UTF-8 bytes and turning each of `A`..=`Z` into its lower-case letter.

use vstd::prelude::*;

verus! {

/// An ASCII upper-case letter becomes lower-case; every other byte stays.
pub open spec fn fold_byte(b: u8) -> u8 {
    if 65 <= b <= 90 {
        (b + 32) as u8
    } else {
        b
    }
}

/// Bytes with ASCII upper case lowered.
pub open spec fn fold_bytes(b: Seq<u8>) -> Seq<u8> {
    b.map_values(|x: u8| fold_byte(x))
}

/// The folded form of a name.
pub open spec fn folded_name(name: Seq<char>) -> Seq<u8> {
    fold_bytes(vstd::utf8::encode_utf8(name))
}

/// A character's code with ASCII `A`..=`Z` lowered, as `to_ascii_lowercase`
/// does.
pub open spec fn lower_code(v: u32) -> u32 {
    if 65 <= v <= 90 {
        (v + 32) as u32
    } else {
        v
    }
}

/// A name's character codes with ASCII upper case lowered: two names are
/// equal up to ASCII case when these are equal.
pub open spec fn ascii_lowercase(s: Seq<char>) -> Seq<u32> {
    s.map_values(|c: char| lower_code(c as u32))
}

proof fn lemma_fold_scalar(x: u32, y: u32)
    requires
        vstd::utf8::is_scalar(x),
        vstd::utf8::is_scalar(y),
        lower_code(x) == lower_code(y),
    ensures
        fold_bytes(vstd::utf8::encode_scalar(x)) == fold_bytes(vstd::utf8::encode_scalar(y)),
{
    if x != y {
        assert(x < 0x80 && y < 0x80);
        assert((x & 0x7F) as u8 == x as u8) by (bit_vector)
            requires
                x < 0x80,
        ;
        assert((y & 0x7F) as u8 == y as u8) by (bit_vector)
            requires
                y < 0x80,
        ;
        assert(fold_bytes(vstd::utf8::encode_scalar(x)) =~= seq![fold_byte(x as u8)]);
        assert(fold_bytes(vstd::utf8::encode_scalar(y)) =~= seq![fold_byte(y as u8)]);
    }
}

/// Names equal up to ASCII case fold to the same bytes.
pub proof fn lemma_fold_respects_ascii_case(a: Seq<char>, b: Seq<char>)
    requires
        ascii_lowercase(a) == ascii_lowercase(b),
    ensures
        folded_name(a) == folded_name(b),
    decreases a.len(),
{
    assert(a.len() == ascii_lowercase(a).len());
    assert(b.len() == ascii_lowercase(b).len());
    if a.len() > 0 {
        let a1 = a.drop_first();
        let b1 = b.drop_first();
        assert(ascii_lowercase(a1) =~= ascii_lowercase(b1)) by {
            assert forall|i: int| 0 <= i < a1.len() implies ascii_lowercase(a1)[i]
                == ascii_lowercase(b1)[i] by {
                assert(ascii_lowercase(a)[i + 1] == ascii_lowercase(b)[i + 1]);
                assert(ascii_lowercase(a)[i + 1] == lower_code(a[i + 1] as u32));
                assert(ascii_lowercase(b)[i + 1] == lower_code(b[i + 1] as u32));
                assert(ascii_lowercase(a1)[i] == lower_code(a1[i] as u32));
                assert(ascii_lowercase(b1)[i] == lower_code(b1[i] as u32));
            }
        }
        lemma_fold_respects_ascii_case(a1, b1);
        assert(ascii_lowercase(a)[0] == ascii_lowercase(b)[0]);
        assert(ascii_lowercase(a)[0] == lower_code(a[0] as u32));
        assert(ascii_lowercase(b)[0] == lower_code(b[0] as u32));
        vstd::utf8::char_is_scalar(a[0]);
        vstd::utf8::char_is_scalar(b[0]);
        lemma_fold_scalar(a[0] as u32, b[0] as u32);
        assert(fold_bytes(vstd::utf8::encode_utf8(a)) =~= fold_bytes(
            vstd::utf8::encode_scalar(a[0] as u32),
        ) + fold_bytes(vstd::utf8::encode_utf8(a1)));
        assert(fold_bytes(vstd::utf8::encode_utf8(b)) =~= fold_bytes(
            vstd::utf8::encode_scalar(b[0] as u32),
        ) + fold_bytes(vstd::utf8::encode_utf8(b1)));
    } else {
        assert(a =~= b);
    }
}

/// A character with ASCII `A`..=`Z` lowered.
pub open spec fn lower_char(c: char) -> char {
    if 65 <= (c as u32) <= 90 {
        ((c as u32) + 32) as char
    } else {
        c
    }
}

/// A name with ASCII upper case lowered.
pub open spec fn lower_chars(s: Seq<char>) -> Seq<char> {
    s.map_values(|c: char| lower_char(c))
}

proof fn lemma_lower_char_code(c: char)
    ensures
        lower_char(c) as u32 == lower_code(c as u32),
{
}

proof fn lemma_or_high(x: u8)
    by (bit_vector)
    ensures
        (0x80u8 | x) >= 0x80,
        (0xC0u8 | x) >= 0x80,
        (0xE0u8 | x) >= 0x80,
        (0xF0u8 | x) >= 0x80,
{
}

proof fn lemma_fold_high_bytes(b: Seq<u8>)
    requires
        forall|i: int| 0 <= i < b.len() ==> b[i] >= 0x80,
    ensures
        fold_bytes(b) == b,
{
    assert(fold_bytes(b) =~= b);
}

/// Folding the bytes of one character gives the bytes of the lowered
/// character.
proof fn lemma_fold_scalar_lowers(c: char)
    ensures
        fold_bytes(vstd::utf8::encode_scalar(c as u32)) == vstd::utf8::encode_scalar(
            lower_char(c) as u32,
        ),
{
    let x = c as u32;
    vstd::utf8::char_is_scalar(c);
    lemma_lower_char_code(c);
    if x < 0x80 {
        let y = lower_code(x);
        assert((x & 0x7F) as u8 == x as u8) by (bit_vector)
            requires
                x < 0x80,
        ;
        assert((y & 0x7F) as u8 == y as u8) by (bit_vector)
            requires
                y < 0x80,
        ;
        assert(fold_bytes(vstd::utf8::encode_scalar(x)) =~= vstd::utf8::encode_scalar(y));
    } else {
        lemma_or_high(((x >> 6) & 0x1F) as u8);
        lemma_or_high((x & 0x3F) as u8);
        lemma_or_high(((x >> 12) & 0x0F) as u8);
        lemma_or_high(((x >> 6) & 0x3F) as u8);
        lemma_or_high(((x >> 18) & 0x7) as u8);
        lemma_or_high(((x >> 12) & 0x3F) as u8);
        lemma_fold_high_bytes(vstd::utf8::encode_scalar(x));
    }
}

/// A name's folded form is the UTF-8 encoding of the name with ASCII upper
/// case lowered.
pub proof fn lemma_folded_is_lowered(s: Seq<char>)
    ensures
        folded_name(s) == vstd::utf8::encode_utf8(lower_chars(s)),
    decreases s.len(),
{
    if s.len() > 0 {
        let s1 = s.drop_first();
        lemma_folded_is_lowered(s1);
        lemma_fold_scalar_lowers(s[0]);
        assert(lower_chars(s).drop_first() =~= lower_chars(s1));
        assert(lower_chars(s)[0] == lower_char(s[0]));
        assert(fold_bytes(vstd::utf8::encode_utf8(s)) =~= fold_bytes(
            vstd::utf8::encode_scalar(s[0] as u32),
        ) + fold_bytes(vstd::utf8::encode_utf8(s1)));
    } else {
        assert(lower_chars(s) =~= Seq::<char>::empty());
        assert(folded_name(s) =~= Seq::<u8>::empty());
    }
}

/// Names that fold to the same bytes are equal up to ASCII case.
pub proof fn lemma_same_fold_same_ascii_case(a: Seq<char>, b: Seq<char>)
    requires
        folded_name(a) == folded_name(b),
    ensures
        ascii_lowercase(a) == ascii_lowercase(b),
{
    lemma_folded_is_lowered(a);
    lemma_folded_is_lowered(b);
    vstd::utf8::encode_utf8_decode_utf8(lower_chars(a));
    vstd::utf8::encode_utf8_decode_utf8(lower_chars(b));
    assert(lower_chars(a) == lower_chars(b));
    assert(a.len() == lower_chars(a).len());
    assert(b.len() == lower_chars(b).len());
    assert forall|i: int| 0 <= i < a.len() implies ascii_lowercase(a)[i] == ascii_lowercase(b)[i] by {
        lemma_lower_char_code(a[i]);
        lemma_lower_char_code(b[i]);
        assert(lower_chars(a)[i] == lower_char(a[i]));
        assert(lower_chars(b)[i] == lower_char(b[i]));
    }
    assert(ascii_lowercase(a) =~= ascii_lowercase(b));
}

/// Two names fold to the same bytes exactly when they are equal up to ASCII
/// case.
pub proof fn lemma_fold_is_ascii_case(a: Seq<char>, b: Seq<char>)
    ensures
        (folded_name(a) == folded_name(b)) == (ascii_lowercase(a) == ascii_lowercase(b)),
{
    if folded_name(a) == folded_name(b) {
        lemma_same_fold_same_ascii_case(a, b);
    }
    if ascii_lowercase(a) == ascii_lowercase(b) {
        lemma_fold_respects_ascii_case(a, b);
    }
}

/// The folded form of `name`: its bytes, with ASCII upper case lowered.
pub fn fold_name(name: &String) -> (r: Vec<u8>)
    ensures
        r@ == folded_name(name@),
{
    let name_bytes = name.as_str().as_bytes();
    let mut lowercase: Vec<u8> = Vec::new();
    let mut i: usize = 0;
    while i < name_bytes.len()
        invariant
            name_bytes@ == vstd::utf8::encode_utf8(name@),
            i <= name_bytes@.len(),
            lowercase@ == fold_bytes(name_bytes@.subrange(0, i as int)),
        decreases name_bytes@.len() - i,
    {
        let byte = name_bytes[i];
        let lowered = if byte >= 65 && byte <= 90 {
            byte + 32
        } else {
            byte
        };
        lowercase.push(lowered);
        assert(name_bytes@.subrange(0, i + 1) =~= name_bytes@.subrange(0, i as int).push(byte));
        i = i + 1;
    }
    assert(name_bytes@.subrange(0, i as int) =~= name_bytes@);
    lowercase
}

/// Whether two byte vectors hold the same bytes.
pub fn same_bytes(a: &Vec<u8>, b: &Vec<u8>) -> (r: bool)
    ensures
        r == (a@ == b@),
{
    if a.len() != b.len() {
        return false;
    }
    let mut i: usize = 0;
    while i < a.len()
        invariant
            a@.len() == b@.len(),
            i <= a@.len(),
            forall|j: int| 0 <= j < i ==> a@[j] == b@[j],
        decreases a@.len() - i,
    {
        if a[i] != b[i] {
            return false;
        }
        i = i + 1;
    }
    assert(a@ =~= b@);
    true
}

/// A set of folded names (the `mapping(string => bool)` of names taken).
pub struct NameSet {
    names: Vec<Vec<u8>>,
}

impl View for NameSet {
    type V = Set<Seq<u8>>;

    closed spec fn view(&self) -> Set<Seq<u8>> {
        Set::new(|k: Seq<u8>| exists|i: int| 0 <= i < self.names@.len() && self.names@[i]@ == k)
    }
}

impl NameSet {
    pub fn new() -> (r: Self)
        ensures
            r@ == Set::<Seq<u8>>::empty(),
    {
        let r = NameSet { names: Vec::new() };
        assert(r@ =~= Set::<Seq<u8>>::empty());
        r
    }

    pub fn contains(&self, key: &Vec<u8>) -> (r: bool)
        ensures
            r == self@.contains(key@),
    {
        let mut i: usize = 0;
        while i < self.names.len()
            invariant
                i <= self.names@.len(),
                forall|j: int| 0 <= j < i ==> self.names@[j]@ != key@,
            decreases self.names@.len() - i,
        {
            if same_bytes(&self.names[i], key) {
                return true;
            }
            i = i + 1;
        }
        false
    }

    pub fn insert(&mut self, key: Vec<u8>)
        ensures
            final(self)@ == old(self)@.insert(key@),
    {
        let ghost k = key@;
        self.names.push(key);
        assert forall|s: Seq<u8>| #[trigger] self@.contains(s) <==> old(self)@.insert(k).contains(s) by {
            if old(self)@.contains(s) {
                let j = choose|j: int| 0 <= j < old(self).names@.len() && old(self).names@[j]@ == s;
                assert(self.names@[j]@ == s);
            }
            if s == k {
                assert(self.names@[self.names@.len() - 1]@ == s);
            }
        }
        assert(self@ =~= old(self)@.insert(k));
    }
}

} // verus!
