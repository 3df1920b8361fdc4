//! Authentication by a static token.
use crate::error::CoreError;
#[allow(unused_imports)]
use crate::text::lemma_utf8_injective;
use vstd::prelude::*;

verus! {

/// The server's side of token authentication: the one token it accepts.
#[derive(Debug)]
pub struct TokenAuth {
    token: String,
}

impl View for TokenAuth {
    type V = Seq<char>;

    closed spec fn view(&self) -> Seq<char> {
        self.token@
    }
}

impl Clone for TokenAuth {
    fn clone(&self) -> (copy: Self)
        ensures
            copy@ == self@,
    {
        TokenAuth { token: self.token.clone() }
    }
}

impl TokenAuth {
    /// Accepts the given token and no other.
    pub fn new(token: impl Into<String>) -> (auth: Self)
        ensures
            exists|text: String| #[trigger]
                call_ensures(Into::into, (token,), text) && auth@ == text@,
    {
        TokenAuth { token: token.into() }
    }

    /// Succeeds exactly on the accepted token.
    pub fn verify(&self, token: &str) -> (verdict: Result<(), CoreError>)
        ensures
            verdict is Ok <==> token@ == self@,
            verdict matches Err(error) ==> error is AuthFailed,
    {
        let same = constant_time_eq(self.token.as_str().as_bytes(), token.as_bytes());
        proof {
            if same {
                lemma_utf8_injective(self.token@, token@);
            }
        }
        if same {
            Ok(())
        } else {
            Err(CoreError::AuthFailed)
        }
    }
}

/// Whether two byte strings are equal, looking at every byte of two that are equally long.
fn constant_time_eq(left: &[u8], right: &[u8]) -> (same: bool)
    ensures
        same == (left@ == right@),
{
    if left.len() != right.len() {
        return false;
    }
    let mut diff: u8 = 0;
    let mut i: usize = 0;
    assert(left@.take(0) =~= right@.take(0));
    while i < left.len()
        invariant
            i <= left.len(),
            left.len() == right.len(),
            diff == 0 <==> left@.take(i as int) == right@.take(i as int),
        decreases left.len() - i,
    {
        let a: u8 = left[i];
        let b: u8 = right[i];
        assert((diff | (a ^ b)) == 0 <==> diff == 0 && a == b) by (bit_vector);
        proof {
            assert(left@.take(i + 1) =~= left@.take(i as int).push(a));
            assert(right@.take(i + 1) =~= right@.take(i as int).push(b));
            assert(left@.take(i + 1).drop_last() =~= left@.take(i as int));
            assert(right@.take(i + 1).drop_last() =~= right@.take(i as int));
            assert(left@.take(i + 1).last() == a);
            assert(right@.take(i + 1).last() == b);
        }
        diff = diff | (a ^ b);
        i += 1;
    }
    assert(left@.take(i as int) =~= left@);
    assert(right@.take(i as int) =~= right@);
    diff == 0
}

} // verus!
