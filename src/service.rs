use vstd::prelude::*;

use crate::clip::Clip;
use crate::error::ServiceError;
use crate::field::Password;

verus! {

/// Hands out a clip that the store returned to a request offering
/// `password`: a clip without a password goes to anyone, a protected one
/// only to the request that offers its password.
pub fn check_password(clip: Clip, password: &Password) -> (r: Result<Clip, ServiceError>)
    ensures
        r is Ok <==> (clip.password@ is None || clip.password@ == password@),
        r matches Ok(c) ==> c == clip,
        r matches Err(e) ==> (e matches ServiceError::PermissionError(m) && m@
            == "Invalid password"@),
{
    if clip.password.has_password() {
        if clip.password.matches(password) {
            Ok(clip)
        } else {
            Err(ServiceError::PermissionError("Invalid password".to_owned()))
        }
    } else {
        Ok(clip)
    }
}

} // verus!
