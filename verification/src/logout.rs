//! Logging out: the credential file is removed.

use crate::error::{file_outcome, ErrorView, IoError, IoErrorView, ZitadelCLIError};
use vstd::prelude::*;

verus! {

/// What the removal of the credential file means for a logout: that the file
/// was not there is as good as its removal, and any other failure is an
/// error.
pub open spec fn logged_out(removal: Result<(), IoErrorView>) -> Result<(), ErrorView> {
    match removal {
        Ok(()) => Ok(()),
        Err(failure) => if failure.not_found {
            Ok(())
        } else {
            Err(ErrorView::IO(failure))
        },
    }
}

/// Says how a logout ended, given what came of the removal of the
/// credential file.
pub fn logout(removal: Result<(), IoError>) -> (r: Result<(), ZitadelCLIError>)
    ensures
        (match r {
            Ok(()) => Ok::<(), ErrorView>(()),
            Err(e) => Err(e@),
        }) == logged_out(file_outcome(removal)),
{
    match removal {
        Ok(()) => Ok(()),
        Err(failure) => if failure.not_found {
            Ok(())
        } else {
            Err(ZitadelCLIError::IO(failure))
        },
    }
}

/// A logout never fails because the credential file is not there, and
/// succeeds where the file was removed.
pub proof fn lemma_logout_is_idempotent(removal: Result<(), IoErrorView>)
    ensures
        removal is Ok ==> logged_out(removal) is Ok,
        removal matches Err(failure) && failure.not_found ==> logged_out(removal) is Ok,
        logged_out(removal) matches Err(e) ==> e matches ErrorView::IO(failure)
            && !failure.not_found,
{
}

} // verus!
