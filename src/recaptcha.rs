use vstd::prelude::*;

use crate::metadata::opt_view;
use crate::models::RecaptchaVerifyRequest;
use crate::text::same_text;

verus! {

/// CAPTCHA verification, enabled when a secret key is configured. The HTTP
/// exchange with the verification service is done by the caller between
/// `prepare_verification` and `verification_outcome`.
#[derive(Debug, Clone)]
pub struct RecaptchaService {
    pub secret_key: Option<String>,
}

pub open spec fn generic_failure() -> Seq<char> {
    "reCAPTCHA verification failed. Please try again"@
}

/// The message shown for the first error code the service returned.
pub open spec fn error_message_spec(codes: Option<Seq<String>>) -> Seq<char> {
    match codes {
        Some(cs) => if cs.len() > 0 {
            let c = cs[0]@;
            if c == "missing-input-response"@ {
                "Please complete the reCAPTCHA challenge"@
            } else if c == "timeout-or-duplicate"@ {
                "reCAPTCHA has expired. Please refresh and try again"@
            } else {
                generic_failure()
            }
        } else {
            generic_failure()
        },
        None => generic_failure(),
    }
}

impl RecaptchaService {
    pub fn new(secret_key: Option<String>) -> (r: RecaptchaService)
        ensures
            r.secret_key == secret_key,
    {
        RecaptchaService { secret_key }
    }

    pub fn is_enabled(&self) -> (r: bool)
        ensures
            r == self.secret_key is Some,
    {
        self.secret_key.is_some()
    }

    /// A message for a failed verification, from the service's error codes.
    pub fn get_error_message(error_codes: Option<&Vec<String>>) -> (r: String)
        ensures
            r@ == error_message_spec(
                match error_codes {
                    Some(v) => Some(v@),
                    None => None,
                },
            ),
    {
        match error_codes {
            Some(codes) => {
                if codes.len() > 0 {
                    let c = codes[0].as_str();
                    if same_text(c, "missing-input-response") {
                        "Please complete the reCAPTCHA challenge".to_string()
                    } else if same_text(c, "timeout-or-duplicate") {
                        "reCAPTCHA has expired. Please refresh and try again".to_string()
                    } else {
                        "reCAPTCHA verification failed. Please try again".to_string()
                    }
                } else {
                    "reCAPTCHA verification failed. Please try again".to_string()
                }
            },
            None => "reCAPTCHA verification failed. Please try again".to_string(),
        }
    }

    /// The first half of verifying a token: without a secret key there is
    /// nothing to check (`Ok(None)`); an empty token is refused; otherwise
    /// the form to send to the verification service.
    pub fn prepare_verification(&self, token: &str, remote_ip: Option<String>) -> (r: Result<
        Option<RecaptchaVerifyRequest>,
        String,
    >)
        ensures
            self.secret_key is None ==> r == Ok::<Option<RecaptchaVerifyRequest>, String>(None),
            self.secret_key is Some && token@.len() == 0 ==> r is Err,
            self.secret_key is Some && token@.len() > 0 ==> (r matches Ok(Some(req))
                && req.secret@ == self.secret_key.unwrap()@ && req.response@ == token@
                && opt_view(req.remoteip) == opt_view(remote_ip)),
    {
        match &self.secret_key {
            None => Ok(None),
            Some(key) => {
                if token.unicode_len() == 0 {
                    return Err("reCAPTCHA token is empty".to_string());
                }
                Ok(
                    Some(
                        RecaptchaVerifyRequest {
                            secret: key.clone(),
                            response: token.to_string(),
                            remoteip: remote_ip,
                        },
                    ),
                )
            },
        }
    }

    /// The second half: the service's answer. The token passes only when the
    /// service answered with success.
    pub fn verification_outcome(status_ok: bool, success: bool) -> (r: Result<bool, String>)
        ensures
            r is Ok <==> status_ok && success,
            r is Ok ==> r == Ok::<bool, String>(true),
    {
        if !status_ok {
            Err("reCAPTCHA verification API error".to_string())
        } else if success {
            Ok(true)
        } else {
            Err("reCAPTCHA verification failed".to_string())
        }
    }
}

} // verus!
