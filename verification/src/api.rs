//! The control-plane data model, as plain values, and the verified pieces
//! of response handling. The HTTP transport lives with the caller; opaque
//! identifiers travel as strings and timestamps as Unix seconds.

use vstd::prelude::*;
use vstd::string::StringExecFns;
use crate::error::AetherError;
use crate::utils::str_eq;

verus! {

/// The generic envelope some endpoints wrap their payloads in.
pub struct ApiResponse<T> {
    pub success: bool,
    pub data: Option<T>,
    pub error: Option<String>,
}

/// An application, owned by the control plane; this client reads and
/// creates them, never mutates their fields locally.
pub struct Application {
    pub id: String,
    pub name: String,
    pub description: Option<String>,
    pub runtime: String,
    pub deployment_url: Option<String>,
    pub created_at: i64,
    pub updated_at: i64,
}

/// A deployment record, created once per successful pipeline run and
/// immutable from the client's side thereafter.
pub struct Deployment {
    pub id: String,
    pub app_id: String,
    pub version: String,
    pub status: String,
    pub artifact_url: Option<String>,
    pub created_at: i64,
}

pub struct CreateAppRequest {
    pub name: String,
    pub description: Option<String>,
    pub runtime: String,
}

pub struct DeployRequest {
    pub app_id: String,
    pub version: String,
    pub artifact_url: String,
}

pub struct RegisterRequest {
    pub email: String,
    pub password: String,
}

pub struct LoginRequest {
    pub email: String,
    pub password: String,
}

pub struct UserResponse {
    pub id: String,
    pub email: String,
    pub created_at: i64,
}

pub struct AuthResponse {
    pub token: String,
    pub user: UserResponse,
}

pub struct CustomDomain {
    pub id: String,
    pub domain: String,
    pub verified: bool,
    pub created_at: i64,
}

pub struct AddCustomDomainRequest {
    pub domain: String,
}

pub struct CustomDomainResponse {
    pub id: String,
    pub domain: String,
    pub verified: bool,
    pub created_at: i64,
}

pub struct GeneratePresignedUrlRequest {
    pub app_id: String,
    pub version: String,
    pub filename: String,
}

pub struct GeneratePresignedUrlResponse {
    pub upload_url: String,
    pub s3_key: String,
    pub expires_in: u64,
}

/// Whether an HTTP-style status counts as success.
pub open spec fn is_success_status(status: u16) -> bool {
    200 <= status < 300
}

/// The verified half of response handling: a success status passes the
/// body through for decoding; any other status becomes the API error, with
/// the server's status and body preserved verbatim.
pub fn handle_response(status: u16, body: String) -> (r: Result<String, AetherError>)
    ensures
        is_success_status(status) ==> r == Result::<String, AetherError>::Ok(body),
        !is_success_status(status) ==> r == Result::<String, AetherError>::Err(
            AetherError::Api { status, message: body },
        ),
{
    if 200 <= status && status < 300 {
        Ok(body)
    } else {
        Err(AetherError::Api { status, message: body })
    }
}

/// Finds the first application whose name matches exactly; absence is not
/// an error here — the caller decides whether to create one.
pub fn find_app_by_name(apps: &Vec<Application>, name: &str) -> (r: Option<usize>)
    ensures
        match r {
            Some(i) => i < apps@.len() && apps@[i as int].name@ == name@ && forall|j: int|
                0 <= j < i ==> (#[trigger] apps@[j]).name@ != name@,
            None => forall|j: int| 0 <= j < apps@.len() ==> (#[trigger] apps@[j]).name@ != name@,
        },
{
    let mut i: usize = 0;
    while i < apps.len()
        invariant
            i <= apps@.len(),
            forall|j: int| 0 <= j < i ==> (#[trigger] apps@[j]).name@ != name@,
        decreases apps@.len() - i,
    {
        if str_eq(apps[i].name.as_str(), name) {
            return Some(i);
        }
        i = i + 1;
    }
    None
}

/// The rendering of fetched log lines as one text, newline-separated.
pub open spec fn spec_joined_lines(lines: Seq<Seq<char>>) -> Seq<char>
    decreases lines.len(),
{
    if lines.len() == 0 {
        Seq::<char>::empty()
    } else if lines.len() == 1 {
        lines[0]
    } else {
        spec_joined_lines(lines.drop_last()) + "\n"@ + lines.last()
    }
}

/// Joins fetched log lines with newlines, as the log endpoints hand them
/// to the display layer.
pub fn join_lines(lines: &Vec<String>) -> (r: String)
    ensures
        r@ == spec_joined_lines(lines.deep_view()),
{
    let ghost all = lines.deep_view();
    let mut r = String::new();
    let mut i: usize = 0;
    while i < lines.len()
        invariant
            i <= lines@.len(),
            all == lines.deep_view(),
            all.len() == lines@.len(),
            r@ == spec_joined_lines(all.take(i as int)),
        decreases lines@.len() - i,
    {
        if i > 0 {
            r.append("\n");
        }
        r.append(lines[i].as_str());
        proof {
            let t = all.take(i + 1);
            assert(t.drop_last() =~= all.take(i as int));
            assert(t.last() == all[i as int]);
            assert(r@ =~= spec_joined_lines(all.take(i + 1)));
        }
        i = i + 1;
    }
    proof {
        assert(all.take(lines@.len() as int) =~= all);
    }
    r
}

} // verus!
