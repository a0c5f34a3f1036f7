use vstd::prelude::*;
use vstd::utf8::valid_utf8;

verus! {

/// Whether `needle` occurs in `hay` starting at byte `i`.
pub open spec fn occurs_at(hay: Seq<u8>, needle: Seq<u8>, i: int) -> bool {
    0 <= i && i + needle.len() <= hay.len() && hay.subrange(i, i + needle.len()) == needle
}

/// Whether `needle` occurs somewhere in `hay` (the empty needle occurs in every hay).
pub open spec fn contains_bytes(hay: Seq<u8>, needle: Seq<u8>) -> bool {
    exists|i: int| occurs_at(hay, needle, i)
}

/// The text that a byte string stands for in a keyword search: the bytes
/// themselves when they are valid UTF-8, else the empty text.
pub open spec fn text_of(bytes: Seq<u8>) -> Seq<u8> {
    if valid_utf8(bytes) {
        bytes
    } else {
        Seq::empty()
    }
}

/// A keyword matches when its text occurs in the text of the name or of the description.
pub open spec fn keyword_hit(name: Seq<u8>, description: Seq<u8>, keyword: Seq<u8>) -> bool {
    contains_bytes(text_of(name), text_of(keyword)) || contains_bytes(text_of(description), text_of(keyword))
}

/// All three keywords match.
pub open spec fn keywords_hit(name: Seq<u8>, description: Seq<u8>, k1: Seq<u8>, k2: Seq<u8>, k3: Seq<u8>) -> bool {
    keyword_hit(name, description, k1) && keyword_hit(name, description, k2) && keyword_hit(name, description, k3)
}

/// Calls `core::str::from_utf8` and reports whether it accepted the bytes,
/// which its documentation says happens exactly when they are valid UTF-8.
#[verifier::external_body]
fn is_utf8(bytes: &Vec<u8>) -> (r: bool)
    ensures
        r == valid_utf8(bytes@),
{
    core::str::from_utf8(bytes.as_slice()).is_ok()
}

fn bytes_contain(hay: &Vec<u8>, needle: &Vec<u8>) -> (r: bool)
    ensures
        r == contains_bytes(hay@, needle@),
{
    if needle.len() > hay.len() {
        assert forall|i: int| !occurs_at(hay@, needle@, i) by {}
        return false;
    }
    let last = hay.len() - needle.len();
    let mut i: usize = 0;
    while i <= last
        invariant
            last == hay@.len() - needle@.len(),
            0 <= i <= last + 1,
            forall|j: int| 0 <= j < i ==> !occurs_at(hay@, needle@, j),
        decreases last + 1 - i,
    {
        let mut k: usize = 0;
        let mut same = true;
        while k < needle.len()
            invariant
                i <= last,
                last == hay@.len() - needle@.len(),
                0 <= k <= needle@.len(),
                same == (forall|m: int| 0 <= m < k ==> hay@[i + m] == needle@[m]),
            decreases needle@.len() - k,
        {
            assert(i + k < hay.len());
            if hay[i + k] != needle[k] {
                same = false;
            }
            k = k + 1;
        }
        if same {
            assert(hay@.subrange(i as int, i + needle@.len()) =~= needle@);
            assert(occurs_at(hay@, needle@, i as int));
            return true;
        }
        assert(!occurs_at(hay@, needle@, i as int)) by {
            let m = choose|m: int| 0 <= m < needle@.len() && hay@[i + m] != needle@[m];
            if hay@.subrange(i as int, i + needle@.len()) == needle@ {
                assert(hay@.subrange(i as int, i + needle@.len())[m] == hay@[i + m]);
            }
        }
        if i == last {
            assert forall|j: int| !occurs_at(hay@, needle@, j) by {
                if 0 <= j <= last {
                } 
            }
            return false;
        }
        i = i + 1;
    }
    false
}

/// Whether the text of `needle` occurs in the text of `hay`, given whether
/// each of them is valid UTF-8.
fn text_contains(hay: &Vec<u8>, hay_ok: bool, needle: &Vec<u8>, needle_ok: bool) -> (r: bool)
    requires
        hay_ok == valid_utf8(hay@),
        needle_ok == valid_utf8(needle@),
    ensures
        r == contains_bytes(text_of(hay@), text_of(needle@)),
{
    let empty: Vec<u8> = Vec::new();
    let h = if hay_ok { hay } else { &empty };
    let n = if needle_ok { needle } else { &empty };
    bytes_contain(h, n)
}

/// Whether all three keywords occur in the name or the description, in the
/// way of a keyword search.
pub(crate) fn keywords_match(name: &Vec<u8>, description: &Vec<u8>, k1: &Vec<u8>, k2: &Vec<u8>, k3: &Vec<u8>) -> (r: bool)
    ensures
        r == keywords_hit(name@, description@, k1@, k2@, k3@),
{
    let name_ok = is_utf8(name);
    let description_ok = is_utf8(description);
    let k1_ok = is_utf8(k1);
    let k2_ok = is_utf8(k2);
    let k3_ok = is_utf8(k3);
    let hit1 = text_contains(name, name_ok, k1, k1_ok) || text_contains(description, description_ok, k1, k1_ok);
    let hit2 = text_contains(name, name_ok, k2, k2_ok) || text_contains(description, description_ok, k2, k2_ok);
    let hit3 = text_contains(name, name_ok, k3, k3_ok) || text_contains(description, description_ok, k3, k3_ok);
    hit1 && hit2 && hit3
}

} // verus!
