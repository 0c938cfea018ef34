//! Declarations of the std I/O and task types that the adapter, the session
//! and the handshake driver pass around, with the few facts about them that
//! their documentation gives.
use vstd::prelude::*;
use vstd::std_specs::iter::IteratorSpec;

verus! {

#[verifier::external_type_specification]
#[verifier::external_body]
pub struct ExIoError(std::io::Error);

#[verifier::external_type_specification]
pub struct ExErrorKind(std::io::ErrorKind);

#[verifier::external_type_specification]
#[verifier::reject_recursive_types(T)]
pub struct ExPoll<T>(std::task::Poll<T>);

#[verifier::external_type_specification]
#[verifier::external_body]
pub struct ExWaker(std::task::Waker);

#[verifier::external_type_specification]
#[verifier::external_body]
pub struct ExContext<'a>(std::task::Context<'a>);

#[verifier::external_type_specification]
#[verifier::external_body]
#[verifier::reject_recursive_types(Ptr)]
pub struct ExPin<Ptr>(std::pin::Pin<Ptr>);

/// The kind that an I/O error carries; it is fixed when the error is made.
pub uninterp spec fn error_kind(e: std::io::Error) -> std::io::ErrorKind;

/// `io::Error::kind` reports the kind that the error was made with.
pub assume_specification[ std::io::Error::kind ](e: &std::io::Error) -> (r: std::io::ErrorKind)
    ensures
        r == error_kind(*e),
;

/// `Context::waker` lends the waker of the task being polled.
pub assume_specification<'a>[ std::task::Context::<'a>::waker ](cx: &std::task::Context<'a>) -> &'a std::task::Waker;

/// `Context::from_waker` builds a context around a borrowed waker.
pub assume_specification<'a>[ std::task::Context::<'a>::from_waker ](w: &'a std::task::Waker) -> std::task::Context<'a>;

/// `Pin::get_mut` hands back the reference that an `Unpin` value was pinned through.
pub assume_specification<'a, T: ?Sized + Unpin>[ std::pin::Pin::<&'a mut T>::get_mut ](p: std::pin::Pin<&'a mut T>) -> &'a mut T;

/// Relies on `Waker::clone`: a second handle that wakes the same task.
#[verifier::external_body]
pub(crate) fn clone_waker(w: &std::task::Waker) -> std::task::Waker {
    w.clone()
}

/// Relies on `From<ErrorKind> for io::Error`: the new error carries `kind`.
#[verifier::external_body]
pub(crate) fn error_of_kind(kind: std::io::ErrorKind) -> (e: std::io::Error)
    ensures
        error_kind(e) == kind,
{
    std::io::Error::from(kind)
}

/// Whether an error is the synchronous "would block, call again" signal.
pub open spec fn is_would_block(e: std::io::Error) -> bool {
    error_kind(e) == std::io::ErrorKind::WouldBlock
}

/// Tells the would-block condition apart from every other I/O error.
pub fn would_block(e: &std::io::Error) -> (r: bool)
    ensures
        r == is_would_block(*e),
{
    matches!(e.kind(), std::io::ErrorKind::WouldBlock)
}

/// Whether `s` holds a NUL character, which no C string can carry.
pub fn has_nul(s: &str) -> (r: bool)
    ensures
        r == s@.contains('\0'),
{
    broadcast use vstd::string::group_string_axioms;

    let mut chars = s.chars();
    let ghost mut seen: int = 0;
    loop
        invariant
            0 <= seen <= s@.len(),
            chars.remaining() == s@.skip(seen),
            chars.obeys_prophetic_iter_laws(),
            forall|j: int| 0 <= j < seen ==> s@[j] != '\0',
        decreases s@.len() - seen,
    {
        let ghost before = chars;
        let c = chars.next();
        proof {
            vstd::string::next_postcondition(&before, &chars, c);
        }
        match c {
            None => {
                assert(s@.skip(seen).len() == 0);
                return false;
            },
            Some(ch) => {
                assert(s@.skip(seen)[0] == s@[seen]);
                if ch == '\0' {
                    return true;
                }
                proof {
                    assert(chars.remaining() =~= s@.skip(seen + 1));
                    seen = seen + 1;
                }
            },
        }
    }
}

} // verus!
