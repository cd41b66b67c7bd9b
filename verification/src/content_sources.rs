//! Locations that serve files: which file a request names, on the local
//! disk or on an ssh host, and how a download over ssh becomes a response.
use vstd::prelude::*;
use crate::static_content::RequestExecutorResult;
use crate::text::{find_first, first_index_of, push_char};

verus! {

/// The file of a folder location that a request path names: the default
/// file for `/` (nothing when there is none), the path itself otherwise.
pub fn serve_file_target<'a>(path: &'a str, default_file: Option<&'a str>) -> (r: Option<&'a str>)
    ensures
        path@ == "/"@ ==> r == default_file,
        path@ != "/"@ ==> r == Some(path),
{
    proof { reveal_strlit("/"); }
    if crate::text::str_eq(path, "/") {
        default_file
    } else {
        Some(path)
    }
}

/// The remote file a request to an ssh folder location names: the folder
/// joined with the default file for `/`, or with the request path.
pub fn remote_file_path(file_path: &str, uri_path: &str, default_file: Option<&str>) -> (r: String)
    ensures
        r@ == if uri_path@ == "/"@ && default_file is Some {
            file_path@ + "/"@ + default_file->0@
        } else {
            file_path@ + uri_path@
        },
{
    proof { reveal_strlit("/"); }
    let mut r = String::from_str(file_path);
    if crate::text::str_eq(uri_path, "/") {
        match default_file {
            Some(f) => {
                r.append("/");
                r.append(f);
                return r;
            },
            None => {},
        }
    }
    r.append(uri_path);
    r
}

/// Whether a remote path refers to the ssh user's home (`~`).
pub fn needs_home(file_path: &str) -> (r: bool)
    ensures
        r == (first_index_of(file_path@, '~') is Some),
{
    find_first(file_path, '~').is_some()
}

/// `s` with every `~` replaced by `home`.
pub open spec fn expand_home_spec(s: Seq<char>, home: Seq<char>) -> Seq<char>
    decreases s.len(),
{
    if s.len() == 0 {
        Seq::empty()
    } else {
        expand_home_spec(s.drop_last(), home) + if s.last() == '~' { home } else { seq![s.last()] }
    }
}

/// Every `~` of a remote path replaced by the home directory.
pub fn expand_home(file_path: &str, home: &str) -> (r: String)
    ensures
        r@ == expand_home_spec(file_path@, home@),
{
    let n = file_path.unicode_len();
    let mut r = String::new();
    let mut i: usize = 0;
    while i < n
        invariant
            n == file_path@.len(),
            0 <= i <= n,
            r@ == expand_home_spec(file_path@.subrange(0, i as int), home@),
        decreases n - i,
    {
        let c = file_path.get_char(i);
        proof {
            assert(file_path@.subrange(0, i + 1).drop_last() == file_path@.subrange(0, i as int));
            assert(file_path@.subrange(0, i + 1).last() == c);
        }
        if c == '~' {
            r.append(home);
        } else {
            push_char(&mut r, c);
        }
        i = i + 1;
    }
    proof { assert(file_path@.subrange(0, n as int) == file_path@); }
    r
}

/// The session error code the ssh library reports for a file that is not
/// there.
pub const SSH_FILE_NOT_FOUND_CODE: i32 = -28;

/// The response to a download over ssh: the file with its content type, a
/// 404 `Not found` when the session reports the missing-file code, and no
/// response (the error is passed on) for any other failure.  A failed
/// download carries the session error code, when it has one.
pub fn ssh_download_response(
    downloaded: Result<Vec<u8>, Option<i32>>,
    content_type: Option<String>,
) -> (r: Option<RequestExecutorResult>)
    ensures
        match downloaded {
            Ok(content) => r matches Some(x) && x.status_code == 200 && x.body@ == content@
                && x.content_type == content_type,
            Err(Some(code)) => if code == SSH_FILE_NOT_FOUND_CODE {
                r matches Some(x) && x.status_code == 404 && x.content_type is None
                    && x.body@ == "Not found"@.map_values(|c: char| c as u8)
            } else {
                r is None
            },
            Err(None) => r is None,
        },
{
    match downloaded {
        Ok(content) => Some(RequestExecutorResult { status_code: 200, content_type, body: content }),
        Err(Some(code)) => {
            if code == SSH_FILE_NOT_FOUND_CODE {
                let mut body: Vec<u8> = Vec::new();
                body.push(78);
                body.push(111);
                body.push(116);
                body.push(32);
                body.push(102);
                body.push(111);
                body.push(117);
                body.push(110);
                body.push(100);
                proof {
                    reveal_strlit("Not found");
                    assert(body@ =~= "Not found"@.map_values(|c: char| c as u8));
                }
                Some(RequestExecutorResult { status_code: 404, content_type: None, body })
            } else {
                None
            }
        },
        Err(None) => None,
    }
}

/// The port an http-over-ssh connection dials: the endpoint's, or 80.
pub fn ssh_tunnel_port(port: Option<u16>) -> (r: u16)
    ensures
        r == match port { Some(p) => p, None => 80 },
{
    match port {
        Some(p) => p,
        None => 80,
    }
}

/// The error text of an http-over-ssh connection that could not be opened.
pub fn ssh_connect_error(endpoint: &str, detail: &str) -> (r: String)
    ensures
        r@ == endpoint@ + ". Err: "@ + detail@,
{
    let mut r = String::from_str(endpoint);
    r.append(". Err: ");
    r.append(detail);
    r
}

} // verus!
