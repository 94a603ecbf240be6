use vstd::prelude::*;
use vstd::utf8::{decode_utf8, valid_utf8};

verus! {

/// The text of a driver string: the bytes before the first nul, or all of
/// them when there is none.
pub open spec fn c_text(b: Seq<u8>) -> Seq<u8>
    decreases b.len(),
{
    if b.len() == 0 {
        b
    } else if b[0] == 0 {
        Seq::empty()
    } else {
        seq![b[0]] + c_text(b.drop_first())
    }
}

proof fn lemma_c_text_ends_at(b: Seq<u8>, k: int)
    requires
        0 <= k <= b.len(),
        forall|i: int| 0 <= i < k ==> b[i] != 0,
        k == b.len() || b[k] == 0,
    ensures
        c_text(b) == b.take(k),
    decreases b.len(),
{
    if b.len() > 0 && k > 0 {
        let rest = b.drop_first();
        assert forall|i: int| 0 <= i < k - 1 implies rest[i] != 0 by {
            assert(rest[i] == b[i + 1]);
        }
        lemma_c_text_ends_at(rest, k - 1);
        assert(b.take(k) =~= seq![b[0]] + rest.take(k - 1));
    } else {
        assert(b.take(k) =~= Seq::<u8>::empty());
    }
}

/// Relies on `String::from_utf8`: it succeeds exactly when the bytes are
/// valid UTF-8, and the string then holds the characters they encode.
#[verifier::external_body]
pub(crate) fn string_from_utf8(bytes: Vec<u8>) -> (r: Option<String>)
    ensures
        r is Some <==> valid_utf8(bytes@),
        r matches Some(s) ==> s@ == decode_utf8(bytes@),
{
    String::from_utf8(bytes).ok()
}

/// Turns the bytes of a string that the driver returned (its version, say)
/// into text: the bytes up to the first nul, followed by that nul. `None`
/// when they are not valid UTF-8.
pub fn get_gl_string(driver_bytes: &[u8]) -> (r: Option<String>)
    ensures
        r is Some <==> valid_utf8(c_text(driver_bytes@).push(0)),
        r matches Some(s) ==> s@ == decode_utf8(c_text(driver_bytes@).push(0)),
{
    let mut charbuff: Vec<u8> = Vec::new();
    let mut i: usize = 0;
    while i < driver_bytes.len() && driver_bytes[i] != 0
        invariant
            i <= driver_bytes@.len(),
            charbuff@ == driver_bytes@.take(i as int),
            forall|j: int| 0 <= j < i ==> driver_bytes@[j] != 0,
        decreases driver_bytes.len() - i,
    {
        charbuff.push(driver_bytes[i]);
        i = i + 1;
        assert(charbuff@ =~= driver_bytes@.take(i as int));
    }
    proof {
        lemma_c_text_ends_at(driver_bytes@, i as int);
    }
    charbuff.push(0);
    string_from_utf8(charbuff)
}

} // verus!
