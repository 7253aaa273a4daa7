//! Account checks before trading options.
use vstd::prelude::*;

verus! {

/// Why the account cannot run the wheel.
#[derive(Clone, Copy, Debug, PartialEq, Eq, Structural)]
pub enum AccountError {
    /// Options trading is not approved (approval level below 1; a missing level counts as 0).
    OptionsNotApproved { level: u8 },
}

/// The account's options approval level, which must be at least 1 (covered calls
/// and cash-secured puts). A level the broker leaves out counts as 0.
pub fn check_options_approval(level: Option<u8>) -> (r: Result<u8, AccountError>)
    ensures
        ({
            let l = match level {
                Some(v) => v,
                None => 0u8,
            };
            if l >= 1 {
                r == Ok::<u8, AccountError>(l)
            } else {
                r == Err::<u8, AccountError>(AccountError::OptionsNotApproved { level: l })
            }
        }),
{
    let l = match level {
        Some(v) => v,
        None => 0,
    };
    if l < 1 {
        Err(AccountError::OptionsNotApproved { level: l })
    } else {
        Ok(l)
    }
}

} // verus!
