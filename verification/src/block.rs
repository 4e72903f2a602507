//! Block references: the selector that a free-form text stands for.

use vstd::prelude::*;
use crate::primitives::{all_hex_digits, hex_bytes, hex_decode, hex_decoded_exact};
use crate::text::{
    all_digits,
    ascii_lower,
    chars_of,
    decimal_u64,
    digits_value,
    eq_ignore_ascii_case,
    is_white_space,
    parse_u64,
    string_of,
    trim,
    trimmed,
};

verus! {

/// The symbolic names of a block.
#[derive(Clone, Copy, Debug, PartialEq, Eq, Structural)]
pub enum BlockTag {
    Latest,
    Finalized,
    Safe,
    Earliest,
    Pending,
}

/// One point of the chain's history: by name, by hash or by height.
#[derive(Clone, Copy, Debug, PartialEq, Eq)]
pub enum BlockSelector {
    Tag(BlockTag),
    Hash([u8; 32]),
    Height(u64),
}

/// What a `BlockSelector` denotes.
pub ghost enum BlockRef {
    Tag(BlockTag),
    Hash(Seq<u8>),
    Height(u64),
}

impl View for BlockSelector {
    type V = BlockRef;

    open spec fn view(&self) -> BlockRef {
        match *self {
            BlockSelector::Tag(tag) => BlockRef::Tag(tag),
            BlockSelector::Hash(hash) => BlockRef::Hash(hash@),
            BlockSelector::Height(n) => BlockRef::Height(n),
        }
    }
}

impl BlockRef {
    /// A hash has 32 bytes; a tag and a height are always in order.
    pub open spec fn valid(self) -> bool {
        self matches BlockRef::Hash(hash) ==> hash.len() == 32
    }
}

/// The tag that `word` names, in lower case.
pub open spec fn tag_named(word: Seq<char>) -> Option<BlockTag> {
    if word == "latest"@ {
        Some(BlockTag::Latest)
    } else if word == "earliest"@ {
        Some(BlockTag::Earliest)
    } else if word == "pending"@ {
        Some(BlockTag::Pending)
    } else if word == "safe"@ {
        Some(BlockTag::Safe)
    } else if word == "finalized"@ {
        Some(BlockTag::Finalized)
    } else {
        None
    }
}

/// The hash that `t` spells: `0x`, then the 64 hexadecimal digits of 32 bytes.
pub open spec fn hash_spelled(t: Seq<char>) -> Option<Seq<u8>> {
    if t.len() == 66 && t[0] == '0' && t[1] == 'x' {
        hex_decoded_exact(t.skip(2), 32)
    } else {
        None
    }
}

/// The selector that a block reference stands for. An absent reference is
/// the latest block. A given one is trimmed of white space and then read, in
/// this order, as a tag in any case, as a hash, as a decimal height; what is
/// none of these is the latest block too.
pub open spec fn resolve_block(input: Option<Seq<char>>) -> BlockRef {
    match input {
        None => BlockRef::Tag(BlockTag::Latest),
        Some(s) => {
            let t = trimmed(s);
            match tag_named(ascii_lower(t)) {
                Some(tag) => BlockRef::Tag(tag),
                None => match hash_spelled(t) {
                    Some(hash) => BlockRef::Hash(hash),
                    None => match decimal_u64(t) {
                        Some(n) => BlockRef::Height(n),
                        None => BlockRef::Tag(BlockTag::Latest),
                    },
                },
            }
        },
    }
}

/// The characters of an optional text.
pub open spec fn opt_text(s: Option<String>) -> Option<Seq<char>> {
    match s {
        Some(s) => Some(s@),
        None => None,
    }
}

/// The tag that `t` names, whatever the case of its letters.
pub fn tag_of(t: &Vec<char>) -> (r: Option<BlockTag>)
    ensures
        r == tag_named(ascii_lower(t@)),
{
    if eq_ignore_ascii_case(t, "latest") {
        Some(BlockTag::Latest)
    } else if eq_ignore_ascii_case(t, "earliest") {
        Some(BlockTag::Earliest)
    } else if eq_ignore_ascii_case(t, "pending") {
        Some(BlockTag::Pending)
    } else if eq_ignore_ascii_case(t, "safe") {
        Some(BlockTag::Safe)
    } else if eq_ignore_ascii_case(t, "finalized") {
        Some(BlockTag::Finalized)
    } else {
        None
    }
}

/// The 32 bytes of `bytes`, where it holds exactly that many.
pub fn word_of(bytes: &Vec<u8>) -> (r: Option<[u8; 32]>)
    ensures
        match r {
            Some(word) => bytes.len() == 32 && word@ == bytes@,
            None => bytes.len() != 32,
        },
{
    if bytes.len() != 32 {
        return None;
    }
    let mut word: [u8; 32] = [0u8; 32];
    let mut i: usize = 0;
    while i < 32
        invariant
            i <= 32,
            bytes.len() == 32,
            forall|k: int| 0 <= k < i ==> word@[k] == bytes@[k],
        decreases 32 - i,
    {
        word[i] = bytes[i];
        i += 1;
    }
    assert(word@ =~= bytes@);
    Some(word)
}

/// The hash that `t` spells.
pub fn hash_of(t: &Vec<char>) -> (r: Option<[u8; 32]>)
    ensures
        match r {
            Some(hash) => hash_spelled(t@) == Some(hash@),
            None => hash_spelled(t@) is None,
        },
{
    if t.len() != 66 || t[0] != '0' || t[1] != 'x' {
        return None;
    }
    let digits = string_of(t, 2, 66);
    assert(digits@ == t@.skip(2));
    match hex_decode(digits.as_str()) {
        Some(bytes) => word_of(&bytes),
        None => None,
    }
}

/// Resolves a block reference. Every text resolves: what cannot be read is
/// the latest block.
pub fn get_block_id(block: Option<String>) -> (r: BlockSelector)
    ensures
        r@ == resolve_block(opt_text(block)),
        r@.valid(),
{
    block_id_of(&block)
}

/// Resolves a block reference that is held elsewhere.
pub fn block_id_of(block: &Option<String>) -> (r: BlockSelector)
    ensures
        r@ == resolve_block(opt_text(*block)),
        r@.valid(),
{
    match block {
        None => BlockSelector::Tag(BlockTag::Latest),
        Some(block_str) => {
            let chars = chars_of(block_str.as_str());
            let t = trim(&chars);
            if let Some(tag) = tag_of(&t) {
                return BlockSelector::Tag(tag);
            }
            if let Some(hash) = hash_of(&t) {
                return BlockSelector::Hash(hash);
            }
            if let Some(n) = parse_u64(&t) {
                return BlockSelector::Height(n);
            }
            BlockSelector::Tag(BlockTag::Latest)
        },
    }
}

/// Every reference, given or not, resolves to a selector that is in order.
pub proof fn resolve_block_is_valid(input: Option<Seq<char>>)
    ensures
        resolve_block(input).valid(),
{
}

/// A text with no white space at either end is its own trimmed form.
pub proof fn trimmed_of_tight(s: Seq<char>)
    requires
        s.len() > 0 ==> !is_white_space(s[0]) && !is_white_space(s.last()),
    ensures
        trimmed(s) == s,
{
    reveal_with_fuel(crate::text::trim_start, 2);
    reveal_with_fuel(crate::text::trim_end, 2);
}

proof fn lemma_tag_words()
    ensures
        "latest"@ =~= seq!['l', 'a', 't', 'e', 's', 't'],
        "earliest"@ =~= seq!['e', 'a', 'r', 'l', 'i', 'e', 's', 't'],
        "pending"@ =~= seq!['p', 'e', 'n', 'd', 'i', 'n', 'g'],
        "safe"@ =~= seq!['s', 'a', 'f', 'e'],
        "finalized"@ =~= seq!['f', 'i', 'n', 'a', 'l', 'i', 'z', 'e', 'd'],
{
    reveal_strlit("latest");
    reveal_strlit("earliest");
    reveal_strlit("pending");
    reveal_strlit("safe");
    reveal_strlit("finalized");
}

/// A tag's name begins with a lower-case letter and has at most nine
/// characters.
proof fn lemma_tag_shape(word: Seq<char>)
    requires
        tag_named(word) is Some,
    ensures
        4 <= word.len() <= 9,
        'a' <= word[0] <= 'z',
{
    lemma_tag_words();
}

/// The word `latest`, in any case and with any white space around it, is
/// what an absent reference resolves to.
pub proof fn latest_is_the_default(s: Seq<char>)
    requires
        ascii_lower(trimmed(s)) == "latest"@,
    ensures
        resolve_block(Some(s)) == resolve_block(None),
        resolve_block(None) == BlockRef::Tag(BlockTag::Latest),
{
}

/// The plain word `latest` resolves as an absent reference does.
pub proof fn latest_word_is_the_default()
    ensures
        resolve_block(Some("latest"@)) == resolve_block(None),
{
    lemma_tag_words();
    let s = "latest"@;
    trimmed_of_tight(s);
    assert(ascii_lower(s) =~= s);
}

/// Whether `t` has the shape of a block hash: `0x`, then 64 hexadecimal digits.
pub open spec fn hash_shaped(t: Seq<char>) -> bool {
    t.len() == 66 && t[0] == '0' && t[1] == 'x' && all_hex_digits(t.skip(2))
}

/// A reference resolves to a hash exactly when its trimmed text is `0x` and
/// 64 hexadecimal digits, and then to the bytes that the digits spell. Any
/// other text that begins with `0x`, shorter, longer or with another character
/// in it, resolves to the latest block.
pub proof fn hash_needs_its_shape(s: Seq<char>)
    ensures
        hash_shaped(trimmed(s)) ==> resolve_block(Some(s)) == BlockRef::Hash(
            hex_bytes(trimmed(s).skip(2)),
        ),
        resolve_block(Some(s)) is Hash ==> hash_shaped(trimmed(s)),
        !hash_shaped(trimmed(s)) && trimmed(s).len() >= 2 && trimmed(s)[0] == '0' && trimmed(s)[1]
            == 'x' ==> resolve_block(Some(s)) == BlockRef::Tag(BlockTag::Latest),
{
    let t = trimmed(s);
    let low = ascii_lower(t);
    if t.len() >= 2 && t[0] == '0' && t[1] == 'x' {
        if tag_named(low) is Some {
            lemma_tag_shape(low);
            assert(low[0] == '0');
        }
        assert(!all_digits(t)) by {
            assert(!crate::text::is_digit(t[1]));
        }
        assert(crate::text::numeral_digits(t) == t);
        assert(decimal_u64(t) is None);
    }
    if t.len() == 66 && t[0] == '0' && t[1] == 'x' {
        let digits = t.skip(2);
        if all_hex_digits(digits) {
            assert(crate::primitives::is_hex_digit(digits[1]));
            assert(crate::primitives::hex_payload(digits) == digits);
            assert(hex_bytes(digits).len() == 32);
        } else {
            if crate::primitives::hex_payload(digits) != digits {
                assert(crate::primitives::hex_payload(digits).len() == 62);
                assert(hex_bytes(crate::primitives::hex_payload(digits)).len() == 31);
            }
        }
    }
}

/// A run of decimal digits whose value fits 64 bits resolves to that height.
pub proof fn digits_are_a_height(s: Seq<char>)
    requires
        s.len() > 0,
        all_digits(s),
        digits_value(s) <= u64::MAX,
    ensures
        resolve_block(Some(s)) == BlockRef::Height(digits_value(s) as u64),
{
    assert(crate::text::is_digit(s[0]));
    assert(crate::text::is_digit(s.last()));
    trimmed_of_tight(s);
    let low = ascii_lower(s);
    if tag_named(low) is Some {
        lemma_tag_shape(low);
        assert(low[0] == s[0]);
    }
    if s.len() >= 2 {
        assert(crate::text::is_digit(s[1]));
    }
    assert(hash_spelled(s) is None);
    assert(crate::text::numeral_digits(s) == s);
}

} // verus!
