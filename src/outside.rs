use vstd::prelude::*;

verus! {

/// tokio's asynchronous file handle, carried through the library as an opaque value.
#[verifier::external_type_specification]
#[verifier::external_body]
pub struct ExTokioFile(tokio::fs::File);

/// tokio's asynchronous mutex, carried through the library as an opaque value.
#[verifier::external_type_specification]
#[verifier::external_body]
#[verifier::reject_recursive_types(T)]
pub struct ExTokioMutex<T: ?Sized>(tokio::sync::Mutex<T>);

/// Sending half of tokio's bounded channel.
#[verifier::external_type_specification]
#[verifier::external_body]
#[verifier::reject_recursive_types(T)]
pub struct ExTokioSender<T>(tokio::sync::mpsc::Sender<T>);

/// Receiving half of tokio's bounded channel.
#[verifier::external_type_specification]
#[verifier::external_body]
#[verifier::reject_recursive_types(T)]
pub struct ExTokioReceiver<T>(tokio::sync::mpsc::Receiver<T>);

/// Relies on tokio's `Mutex::new`, which builds an unlocked mutex around `t` and cannot fail.
#[verifier::external_body]
pub(crate) fn guarded<T>(t: T) -> tokio::sync::Mutex<T> {
    tokio::sync::Mutex::new(t)
}

/// Relies on tokio's `mpsc::channel`, which panics on a zero capacity and on one above the
/// semaphore's limit of `usize::MAX >> 3` permits (that is, `usize::MAX / 8`).
pub assume_specification<T>[ tokio::sync::mpsc::channel::<T> ](buffer: usize) -> (
    tokio::sync::mpsc::Sender<T>,
    tokio::sync::mpsc::Receiver<T>,
)
    requires
        0 < buffer <= usize::MAX / 8,
;

/// Relies on `Arc::clone`, which hands out another pointer to the same allocation.
#[verifier::external_body]
pub(crate) fn share<T>(a: &std::sync::Arc<T>) -> (r: std::sync::Arc<T>)
    ensures
        r == *a,
{
    std::sync::Arc::clone(a)
}

/// std's monotonic clock reading, carried as an opaque value.
#[verifier::external_type_specification]
#[verifier::external_body]
pub struct ExInstant(std::time::Instant);

/// Relies on `Instant::now`: a reading of the monotonic clock, about which nothing more is
/// known.
pub assume_specification[ std::time::Instant::now ]() -> std::time::Instant;

/// Relies on `Instant::elapsed`: the time since the reading, about which nothing more is
/// known.
pub assume_specification[ std::time::Instant::elapsed ](i: &std::time::Instant) -> std::time::Duration;

} // verus!
