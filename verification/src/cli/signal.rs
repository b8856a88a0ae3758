//! Reading a signal given on the command line (`kuro kill`): a number or
//! a name, with or without the `SIG` prefix, in any letter case.
use vstd::prelude::*;

use crate::error::{ErrorView, KuroError};
use crate::text::{concat2, i64_text, int_text, is_blank, parse_i32, parse_i32_text, starts_with, trim, trimmed};

verus! {

/// Whether `nix`'s `Signal::try_from` accepts the number `n`.
pub uninterp spec fn nix_signal_number_known(n: i32) -> bool;

/// The number of the signal that `nix`'s `Signal::from_str` reads from
/// `name`, if it reads one.
pub uninterp spec fn nix_signal_by_name(name: Seq<char>) -> Option<i32>;

/// What `str::to_uppercase` gives for `s`.
pub uninterp spec fn unicode_uppercase(s: Seq<char>) -> Seq<char>;

/// `nix::sys::signal::Signal::try_from(n)`: claims only that the answer is
/// whether `nix` knows a signal with that number (its `try_from` returns
/// the signal whose value is `n`, or `EINVAL`).
#[verifier::external_body]
fn signal_number_known(n: i32) -> (r: bool)
    ensures
        r == nix_signal_number_known(n),
{
    nix::sys::signal::Signal::try_from(n).is_ok()
}

/// `<nix::sys::signal::Signal as FromStr>::from_str(name)`, the signal
/// taken by its number: claims that the answer is a function of the name.
#[verifier::external_body]
fn signal_by_name(name: &str) -> (r: Option<i32>)
    ensures
        r == nix_signal_by_name(name@),
{
    match name.parse::<nix::sys::signal::Signal>() {
        Ok(sig) => Some(sig as i32),
        Err(_) => None,
    }
}

/// `str::to_uppercase`: claims that the answer is a function of the text.
#[verifier::external_body]
fn uppercase(s: &str) -> (r: String)
    ensures
        r@ == unicode_uppercase(s@),
{
    s.to_uppercase()
}

/// The signal that an upper-cased signal text names, or the error for it.
/// `given` is the text as the user wrote it, for the message.
pub open spec fn signal_from_upper(upper: Seq<char>, given: Seq<char>) -> Result<
    i32,
    ErrorView,
> {
    match parse_i32(upper) {
        Some(n) => if nix_signal_number_known(n) {
            Ok(n)
        } else {
            Err(ErrorView::InvalidArgs("Invalid signal number: "@ + int_text(n as int)))
        },
        None => {
            let name = if upper.len() >= 3 && upper.take(3) == "SIG"@ {
                upper
            } else {
                "SIG"@ + upper
            };
            match nix_signal_by_name(name) {
                Some(n) => Ok(n),
                None => Err(ErrorView::InvalidArgs("Invalid signal name: "@ + given)),
            }
        },
    }
}

pub open spec fn signal_result_view(r: Result<i32, KuroError>) -> Result<i32, ErrorView> {
    match r {
        Ok(n) => Ok(n),
        Err(e) => Err(e@),
    }
}

/// Reads an upper-cased signal text: a number must be one that `nix`
/// knows; a name is looked up with the `SIG` prefix added when missing.
pub fn signal_from_upper_text(upper: &str, given: &str) -> (r: Result<i32, KuroError>)
    ensures
        signal_result_view(r) == signal_from_upper(upper@, given@),
{
    match parse_i32_text(upper) {
        Some(n) => {
            if signal_number_known(n) {
                Ok(n)
            } else {
                let num = i64_text(n as i64);
                Err(KuroError::InvalidArgs(concat2("Invalid signal number: ", num.as_str())))
            }
        },
        None => {
            proof {
                reveal_strlit("SIG");
            }
            let name = if starts_with(upper, "SIG") {
                String::from_str(upper)
            } else {
                concat2("SIG", upper)
            };
            match signal_by_name(name.as_str()) {
                Some(n) => Ok(n),
                None => Err(KuroError::InvalidArgs(concat2("Invalid signal name: ", given))),
            }
        },
    }
}

/// Reads the signal of `kuro kill`: the text is trimmed and upper-cased,
/// then read as `signal_from_upper` says.
pub fn parse_signal(sig: &str) -> (r: Result<i32, KuroError>)
    ensures
        signal_result_view(r) == signal_from_upper(unicode_uppercase(trim(sig@)), sig@),
{
    let t = trimmed(sig);
    let upper = uppercase(t.as_str());
    signal_from_upper_text(upper.as_str(), sig)
}

/// The signal text `kuro kill` goes by: `SIGTERM` when none is given.
pub fn kill_signal_text(signal: &str) -> (r: String)
    ensures
        r@ == (if trim(signal@).len() == 0 {
            "SIGTERM"@
        } else {
            signal@
        }),
{
    if is_blank(signal) {
        String::from_str("SIGTERM")
    } else {
        String::from_str(signal)
    }
}

/// A signal name may be given with or without its `SIG` prefix: any text
/// that is not a number and does not already start with `SIG` reads the
/// same as that text with `SIG` put before it.
pub proof fn law_sig_prefix_optional(name: Seq<char>, given: Seq<char>)
    requires
        parse_i32(name) is None,
        !(name.len() >= 3 && name.take(3) == "SIG"@),
    ensures
        signal_from_upper(name, given) == signal_from_upper("SIG"@ + name, given),
{
    reveal_strlit("SIG");
    let full = "SIG"@ + name;
    assert(full.take(3) =~= "SIG"@);
    assert(crate::text::unsigned_part(full) == full);
    assert(!crate::text::is_digit(full[0]));
}

} // verus!
