//! The requests the client sends: addresses, forms and the answers to expect.

use vstd::prelude::*;

use crate::text::{decimal_of, decimal_string, lemma_decimal_roundtrip, parse_u32_spec};
use crate::trusted::{form_urlencoded, form_urlencoded_of};
use crate::types::{ErrorView, TabunError};

verus! {

/// The site's address. Other LiveStreet sites would only change this.
pub const HOST_URL: &'static str = "https://tabun.everypony.ru";

/// The login page, which carries the security key.
pub const LOGIN_PAGE_PATH: &'static str = "/login";

/// The front page, which names the signed-in user.
pub const HOME_PATH: &'static str = "/";

/// Where the login form is sent.
pub const LOGIN_FORM_PATH: &'static str = "/login/ajax-login";

/// Where an image upload is sent.
pub const IMAGE_UPLOAD_PATH: &'static str = "/ajax/upload/image";

/// The full address of the site's path `path`.
pub fn site_url(path: &str) -> (r: String)
    ensures
        r@ == HOST_URL@ + path@,
{
    let mut r = String::from_str(HOST_URL);
    r.append(path);
    r
}

/// The path of the blog named `name`.
pub fn blog_path(name: &str) -> (r: String)
    ensures
        r@ == "/blog/"@ + name@,
{
    let mut r = String::from_str("/blog/");
    r.append(name);
    r
}

/// The path of the profile of `name`, or of the signed-in user `current`
/// where no name is given.
pub fn profile_path(name: Option<&str>, current: &str) -> (r: String)
    ensures
        r@ == "/profile/"@ + match name {
            Some(n) => n@,
            None => current@,
        },
{
    let mut r = String::from_str("/profile/");
    match name {
        Some(n) => r.append(n),
        None => r.append(current),
    }
    r
}

/// The word that names what is added to favourites.
pub open spec fn favourite_target(comment: bool) -> Seq<char> {
    if comment {
        "comment"@
    } else {
        "topic"@
    }
}

/// The path to which a favourite request for a comment or a post goes.
pub fn favourite_path(comment: bool) -> (r: String)
    ensures
        r@ == "/ajax/favourite/"@ + favourite_target(comment) + "/"@,
{
    let mut r = String::from_str("/ajax/favourite/");
    if comment {
        r.append("comment");
    } else {
        r.append("topic");
    }
    r.append("/");
    r
}

/// A name/value pair of a form.
fn field(name: &str, value: &str) -> (r: (String, String))
    ensures
        r.deep_view() == (name@, value@),
{
    (String::from_str(name), String::from_str(value))
}

/// The login form: name, password, where to return, to be remembered, and
/// the security key.
pub open spec fn login_form_of(login: Seq<char>, pass: Seq<char>, key: Seq<char>) -> Seq<
    (Seq<char>, Seq<char>),
> {
    seq![
        ("login"@, login),
        ("password"@, pass),
        ("return-path"@, HOST_URL@),
        ("remember"@, "on"@),
        ("security_ls_key"@, key),
    ]
}

/// The fields of the login form.
pub fn login_form(login: &str, pass: &str, key: &str) -> (r: Vec<(String, String)>)
    ensures
        r.deep_view() == login_form_of(login@, pass@, key@),
{
    let mut r: Vec<(String, String)> = Vec::new();
    r.push(field("login", login));
    r.push(field("password", pass));
    r.push(field("return-path", HOST_URL));
    r.push(field("remember", "on"));
    r.push(field("security_ls_key", key));
    assert(r.deep_view() =~= login_form_of(login@, pass@, key@));
    r
}

/// The image upload form: an empty title, the image's address, the key.
pub open spec fn upload_form_of(url: Seq<char>, key: Seq<char>) -> Seq<(Seq<char>, Seq<char>)> {
    seq![("title"@, ""@), ("img_url"@, url), ("security_ls_key"@, key)]
}

/// The fields of the image upload form.
pub fn upload_form(url: &str, key: &str) -> (r: Vec<(String, String)>)
    ensures
        r.deep_view() == upload_form_of(url@, key@),
{
    let mut r: Vec<(String, String)> = Vec::new();
    r.push(field("title", ""));
    r.push(field("img_url", url));
    r.push(field("security_ls_key", key));
    assert(r.deep_view() =~= upload_form_of(url@, key@));
    r
}

/// The favourite form: the comment's or post's id, `1` to add or `0` to
/// remove, and the key.
pub open spec fn favourite_form_of(id: u32, add: bool, comment: bool, key: Seq<char>) -> Seq<
    (Seq<char>, Seq<char>),
> {
    seq![
        (if comment {
            "idComment"@
        } else {
            "idTopic"@
        }, decimal_of(id as nat)),
        ("type"@, if add {
            "1"@
        } else {
            "0"@
        }),
        ("security_ls_key"@, key),
    ]
}

/// The fields of a favourite request.
pub fn favourite_form(id: u32, add: bool, comment: bool, key: &str) -> (r: Vec<(String, String)>)
    ensures
        r.deep_view() == favourite_form_of(id, add, comment, key@),
{
    let number = decimal_string(id);
    let mut r: Vec<(String, String)> = Vec::new();
    if comment {
        r.push(field("idComment", number.as_str()));
    } else {
        r.push(field("idTopic", number.as_str()));
    }
    if add {
        r.push(field("type", "1"));
    } else {
        r.push(field("type", "0"));
    }
    r.push(field("security_ls_key", key));
    assert(r.deep_view() =~= favourite_form_of(id, add, comment, key@));
    r
}

/// A favourite request names the post (`idTopic`) or the comment
/// (`idComment`) by its number, spelled so that it reads back as `id`; asks
/// to add it with type `1` and to remove it with type `0`, whatever the id,
/// target and key; and ends with the key. Adding and removing the same entry
/// differ in the type alone.
pub proof fn law_favourite_form(id: u32, add: bool, comment: bool, key: Seq<char>)
    ensures
        ({
            let f = favourite_form_of(id, add, comment, key);
            &&& f.len() == 3
            &&& comment ==> f[0].0 == "idComment"@
            &&& !comment ==> f[0].0 == "idTopic"@
            &&& parse_u32_spec(f[0].1) == Some(id)
            &&& add ==> f[1] == ("type"@, "1"@)
            &&& !add ==> f[1] == ("type"@, "0"@)
            &&& f[2] == ("security_ls_key"@, key)
        }),
        favourite_form_of(id, false, comment, key) == favourite_form_of(id, true, comment, key).update(
            1,
            ("type"@, "0"@),
        ),
{
    lemma_decimal_roundtrip(id);
    assert(favourite_form_of(id, false, comment, key) =~= favourite_form_of(
        id,
        true,
        comment,
        key,
    ).update(1, ("type"@, "0"@)));
}

/// Every form ends with the security key it was given, and carries the
/// user's own values where the site expects them: the login form its name
/// and password first, the upload form the image's address second.
pub proof fn law_forms_carry_key(
    login: Seq<char>,
    pass: Seq<char>,
    url: Seq<char>,
    key: Seq<char>,
)
    ensures
        login_form_of(login, pass, key).last() == ("security_ls_key"@, key),
        login_form_of(login, pass, key)[0] == ("login"@, login),
        login_form_of(login, pass, key)[1] == ("password"@, pass),
        upload_form_of(url, key).last() == ("security_ls_key"@, key),
        upload_form_of(url, key)[1] == ("img_url"@, url),
{
}

/// The body of a form sent as `application/x-www-form-urlencoded`.
pub fn urlencoded_body(form: &Vec<(String, String)>) -> (r: String)
    ensures
        r@ == form_urlencoded_of(form.deep_view()),
{
    form_urlencoded(form)
}

/// The view of the answer to a status.
pub open spec fn check_view(r: Result<(), TabunError>) -> Result<(), ErrorView> {
    match r {
        Ok(()) => Ok(()),
        Err(e) => Err(e@),
    }
}

/// A page is read only from a `200 OK` answer; any other status is the error.
pub fn check_get_status(status: u16) -> (r: Result<(), TabunError>)
    ensures
        check_view(r) == if status == 200 {
            Ok(())
        } else {
            Err(ErrorView::NumError(status))
        },
{
    if status == 200 {
        Ok(())
    } else {
        Err(TabunError::from_status(status))
    }
}

/// A form is taken when the answer is `200 OK` or `301 Moved Permanently`;
/// any other status is the error.
pub fn check_post_status(status: u16) -> (r: Result<(), TabunError>)
    ensures
        check_view(r) == if status == 200 || status == 301 {
            Ok(())
        } else {
            Err(ErrorView::NumError(status))
        },
{
    if status == 200 || status == 301 {
        Ok(())
    } else {
        Err(TabunError::from_status(status))
    }
}

/// The name and password to sign in with: both, or none at all, in which
/// case the client stays anonymous.
pub fn credentials(login: Option<String>, pass: Option<String>) -> (r: Option<(String, String)>)
    ensures
        r.deep_view() == match (login.deep_view(), pass.deep_view()) {
            (Some(l), Some(p)) => Some((l, p)),
            _ => None,
        },
{
    match (login, pass) {
        (Some(l), Some(p)) => Some((l, p)),
        _ => None,
    }
}

} // verus!
