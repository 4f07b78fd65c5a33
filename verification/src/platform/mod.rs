//! The platform backends, and the rule that silences the bubble while an
//! excluded application is in front.

use vstd::prelude::*;

verus! {

pub struct LinuxBackend;

impl LinuxBackend {
    pub fn new() -> (b: Self)
        ensures
            b == LinuxBackend,
    {
        LinuxBackend
    }
}

pub struct MacosBackend;

impl MacosBackend {
    pub fn new() -> (b: Self)
        ensures
            b == MacosBackend,
    {
        MacosBackend
    }
}

pub struct WindowsBackend;

impl WindowsBackend {
    pub fn new() -> (b: Self)
        ensures
            b == WindowsBackend,
    {
        WindowsBackend
    }
}

/// The lower-case form of a text under Unicode's default case mapping.
pub uninterp spec fn lowercase(s: Seq<char>) -> Seq<char>;

/// Lower-cases `s` with std's `str::to_lowercase`, which applies Unicode's
/// default, locale-independent case mapping; the result depends on `s` alone.
#[verifier::external_body]
fn to_lowercase(s: &str) -> (r: String)
    ensures
        r@ == lowercase(s@),
{
    s.to_lowercase()
}

/// Whether the executable named `file_name` is on the list `exclude_apps`,
/// ignoring case.
pub fn matches_excluded_app(file_name: &str, exclude_apps: &[String]) -> (r: bool)
    ensures
        r == exists|i: int|
            0 <= i < exclude_apps@.len() && lowercase(file_name@) == lowercase(
                #[trigger] exclude_apps@[i]@,
            ),
{
    let name = to_lowercase(file_name);
    let mut i: usize = 0;
    while i < exclude_apps.len()
        invariant
            i <= exclude_apps@.len(),
            name@ == lowercase(file_name@),
            forall|j: int| 0 <= j < i ==> lowercase(file_name@) != lowercase(#[trigger] exclude_apps@[j]@),
        decreases exclude_apps.len() - i,
    {
        let app = to_lowercase(exclude_apps[i].as_str());
        if name == app {
            return true;
        }
        i = i + 1;
    }
    false
}

} // verus!
