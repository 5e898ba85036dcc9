//! Reading what the site answers to the client's requests.

use vstd::prelude::*;

use crate::text::{
    contains, contains_seq, law_remove_char, parse_u32, parse_u32_spec, remove_char, without_char,
};
use crate::trusted::{regex_captures, regex_captures_of, unescape_of, unescape_text};
use crate::types::{unparsable, ErrorView, TabunError};

verus! {

/// Where the login page keeps the key that every later form must carry.
pub const SECURITY_KEY_PATTERN: &'static str = "LIVESTREET_SECURITY_KEY = '(.+)'";

/// How the site reports an error in a JSON reply: a title and a message.
pub const SITE_ERROR_PATTERN: &'static str = "\"sMsgTitle\":\"(.+)\",\"sMsg\":\"(.+?)\"";

/// Where an image upload reply gives the address of the stored image.
pub const IMAGE_URL_PATTERN: &'static str = "img src=\\\\&quot;(.+)\\\\&quot;";

/// Where a favourite reply gives the new number of favourites.
pub const FAVOURITE_COUNT_PATTERN: &'static str = "\"iCount\":(\\d+)";

/// The marker of a refused favourite request.
pub const STATE_ERROR_MARKER: &'static str = "\"bStateError\":true";

/// The marker of a request the site took for an attack.
pub const HACKING_MARKER: &'static str = "Hacking";

/// Capture group `i` of a capture result, when it took part in the match.
pub open spec fn group_of(caps: Option<Seq<Option<Seq<char>>>>, i: int) -> Option<Seq<char>> {
    match caps {
        Some(g) => if 0 <= i < g.len() {
            g[i]
        } else {
            None
        },
        None => None,
    }
}

/// Group `i` of a capture result `caps`: `None` where nothing matched, the
/// group is out of range or took no part in the match.
pub fn group_at(caps: &Option<Vec<Option<String>>>, i: usize) -> (r: Option<String>)
    ensures
        r.deep_view() == group_of(caps.deep_view(), i as int),
{
    match caps {
        Some(g) => {
            if i < g.len() {
                match &g[i] {
                    Some(t) => Some(t.clone()),
                    None => None,
                }
            } else {
                None
            }
        },
        None => None,
    }
}

/// The text of capture group `group` where `pattern` matches `text`.
pub fn captured(pattern: &str, text: &str, group: usize) -> (r: Option<String>)
    ensures
        r.deep_view() == group_of(regex_captures_of(pattern@, text@), group as int),
{
    let caps = regex_captures(pattern, text);
    group_at(&caps, group)
}

/// The number that capture group `group` of `pattern` spells in `text`.
pub open spec fn captured_u32_of(pattern: Seq<char>, text: Seq<char>, group: int) -> Option<u32> {
    match group_of(regex_captures_of(pattern, text), group) {
        Some(t) => parse_u32_spec(t),
        None => None,
    }
}

/// Reads the number in capture group `group` of `pattern` in `text`: `None`
/// where the pattern does not match, the group took no part, or its text is
/// not a `u32`.
pub fn parse_text_to_res(pattern: &str, text: &str, group: usize) -> (r: Option<u32>)
    ensures
        r == captured_u32_of(pattern@, text@, group as int),
{
    match captured(pattern, text, group) {
        Some(t) => parse_u32(t.as_str()),
        None => None,
    }
}

/// The site's error carried by a capture result of [`SITE_ERROR_PATTERN`],
/// with both parts unescaped; `None` where a part is missing or cannot be
/// unescaped.
pub open spec fn site_error_of(caps: Option<Seq<Option<Seq<char>>>>) -> Option<ErrorView> {
    match (group_of(caps, 1), group_of(caps, 2)) {
        (Some(t), Some(m)) => match (unescape_of(t), unescape_of(m)) {
            (Some(a), Some(b)) => Some(ErrorView::Error(a, b)),
            _ => None,
        },
        _ => None,
    }
}

/// The view of an optional error.
pub open spec fn error_view_of(r: Option<TabunError>) -> Option<ErrorView> {
    match r {
        Some(e) => Some(e@),
        None => None,
    }
}

/// The site's error carried by a capture result `caps` of
/// [`SITE_ERROR_PATTERN`], its title and message unescaped; `None` where a
/// part is missing or cannot be unescaped.
pub fn site_error(caps: &Option<Vec<Option<String>>>) -> (r: Option<TabunError>)
    ensures
        error_view_of(r) == site_error_of(caps.deep_view()),
{
    let title = group_at(caps, 1);
    let message = group_at(caps, 2);
    match (title, message) {
        (Some(t), Some(m)) => match (unescape_text(t.as_str()), unescape_text(m.as_str())) {
            (Some(a), Some(b)) => Some(TabunError::Error(a, b)),
            _ => None,
        },
        _ => None,
    }
}

/// The security key on the login page `page_html`: capture group 1 of
/// [`SECURITY_KEY_PATTERN`]; `None` where the page carries none, a page the
/// client cannot go on from.
pub fn security_key(page_html: &str) -> (r: Option<String>)
    ensures
        r.deep_view() == group_of(regex_captures_of(SECURITY_KEY_PATTERN@, page_html@), 1),
{
    captured(SECURITY_KEY_PATTERN, page_html, 1)
}

/// The view of an optional outcome without a value.
pub open spec fn unit_outcome_view(r: Option<Result<(), TabunError>>) -> Option<Result<(), ErrorView>> {
    match r {
        Some(Ok(())) => Some(Ok(())),
        Some(Err(e)) => Some(Err(e@)),
        None => None,
    }
}

/// The view of an optional outcome carrying text.
pub open spec fn text_outcome_view(r: Option<Result<String, TabunError>>) -> Option<
    Result<Seq<char>, ErrorView>,
> {
    match r {
        Some(Ok(s)) => Some(Ok(s@)),
        Some(Err(e)) => Some(Err(e@)),
        None => None,
    }
}

/// The view of an optional outcome carrying a number.
pub open spec fn count_outcome_view(r: Option<Result<u32, TabunError>>) -> Option<Result<u32, ErrorView>> {
    match r {
        Some(Ok(n)) => Some(Ok(n)),
        Some(Err(e)) => Some(Err(e@)),
        None => None,
    }
}

/// The site's error in the capture result `caps` as a failed outcome;
/// `None` where it cannot be read.
pub open spec fn site_failure<T>(caps: Option<Seq<Option<Seq<char>>>>) -> Option<Result<T, ErrorView>> {
    match site_error_of(caps) {
        Some(e) => Some(Err(e)),
        None => None,
    }
}

/// What a reply `body` to the login form means, given the capture result
/// `error_caps` of [`SITE_ERROR_PATTERN`] on it: `Hacking` anywhere in the
/// body is the site refusing the request as an attack; otherwise a match is
/// the site's error; otherwise the login went through. `None` is the one
/// reply the client cannot act on: an error whose parts cannot be unescaped.
pub open spec fn login_reply_of(body: Seq<char>, error_caps: Option<Seq<Option<Seq<char>>>>) -> Option<
    Result<(), ErrorView>,
> {
    if contains_seq(body, HACKING_MARKER@) {
        Some(Err(ErrorView::HackingAttempt))
    } else if error_caps is Some {
        site_failure(error_caps)
    } else {
        Some(Ok(()))
    }
}

/// What a reply `body` to the login form means (see [`login_reply_of`]).
pub open spec fn login_outcome_of(body: Seq<char>) -> Option<Result<(), ErrorView>> {
    login_reply_of(body, regex_captures_of(SITE_ERROR_PATTERN@, body))
}

/// Reads the reply `body` to the login form, given the capture result
/// `error_caps` of [`SITE_ERROR_PATTERN`] on it.
pub fn login_reply(body: &str, error_caps: &Option<Vec<Option<String>>>) -> (r: Option<
    Result<(), TabunError>,
>)
    ensures
        unit_outcome_view(r) == login_reply_of(body@, error_caps.deep_view()),
{
    if contains(body, HACKING_MARKER) {
        return Some(Err(TabunError::HackingAttempt));
    }
    if error_caps.is_some() {
        match site_error(error_caps) {
            Some(e) => Some(Err(e)),
            None => None,
        }
    } else {
        Some(Ok(()))
    }
}

/// Reads the reply `body` to the login form.
pub fn login_outcome(body: &str) -> (r: Option<Result<(), TabunError>>)
    ensures
        unit_outcome_view(r) == login_outcome_of(body@),
{
    let caps = regex_captures(SITE_ERROR_PATTERN, body);
    login_reply(body, &caps)
}

/// The operation name in the errors of an image upload.
pub open spec fn upload_place() -> Seq<char> {
    "upload_image_from_url"@
}

/// What a reply to an image upload means, given the capture results of
/// [`IMAGE_URL_PATTERN`] (`image_caps`) and [`SITE_ERROR_PATTERN`]
/// (`error_caps`) on it: where the image pattern matches, the image's
/// address with the backslashes of the site's escaping removed; otherwise the
/// site's error; otherwise an unreadable page. `None` marks the replies the
/// client cannot act on: a match without its group, or an error whose parts
/// cannot be unescaped.
pub open spec fn upload_reply_of(
    image_caps: Option<Seq<Option<Seq<char>>>>,
    error_caps: Option<Seq<Option<Seq<char>>>>,
) -> Option<Result<Seq<char>, ErrorView>> {
    if image_caps is Some {
        match group_of(image_caps, 1) {
            Some(url) => Some(Ok(remove_char(url, '\\'))),
            None => None,
        }
    } else if error_caps is None {
        Some(Err(unparsable(upload_place(), 1)))
    } else {
        site_failure(error_caps)
    }
}

/// What a reply `body` to an image upload means (see [`upload_reply_of`]).
pub open spec fn upload_outcome_of(body: Seq<char>) -> Option<Result<Seq<char>, ErrorView>> {
    upload_reply_of(
        regex_captures_of(IMAGE_URL_PATTERN@, body),
        regex_captures_of(SITE_ERROR_PATTERN@, body),
    )
}

/// Reads the reply to an image upload, given the capture results of
/// [`IMAGE_URL_PATTERN`] and [`SITE_ERROR_PATTERN`] on it.
pub fn upload_reply(
    image_caps: &Option<Vec<Option<String>>>,
    error_caps: &Option<Vec<Option<String>>>,
) -> (r: Option<Result<String, TabunError>>)
    ensures
        text_outcome_view(r) == upload_reply_of(image_caps.deep_view(), error_caps.deep_view()),
{
    if image_caps.is_some() {
        match group_at(image_caps, 1) {
            Some(url) => Some(Ok(without_char(url.as_str(), '\\'))),
            None => None,
        }
    } else if error_caps.is_none() {
        Some(Err(TabunError::unparsable_page("upload_image_from_url", 1)))
    } else {
        match site_error(error_caps) {
            Some(e) => Some(Err(e)),
            None => None,
        }
    }
}

/// Reads the reply `body` to an image upload.
pub fn upload_outcome(body: &str) -> (r: Option<Result<String, TabunError>>)
    ensures
        text_outcome_view(r) == upload_outcome_of(body@),
{
    let image_caps = regex_captures(IMAGE_URL_PATTERN, body);
    let error_caps = regex_captures(SITE_ERROR_PATTERN, body);
    upload_reply(&image_caps, &error_caps)
}

/// What the reply to a favourite request means, given its HTTP status, its
/// body and the capture results of [`SITE_ERROR_PATTERN`] (`error_caps`) and
/// [`FAVOURITE_COUNT_PATTERN`] (`count_caps`) on the body: a status other
/// than 200 is that status as an error; a body marked with
/// [`STATE_ERROR_MARKER`] is the site's error; otherwise the new count, group
/// 1 of the count pattern. `None` marks the replies the client cannot act on:
/// a marked body without a readable error, or a count that is missing or not
/// a `u32`.
pub open spec fn favourite_reply_of(
    status: u16,
    body: Seq<char>,
    error_caps: Option<Seq<Option<Seq<char>>>>,
    count_caps: Option<Seq<Option<Seq<char>>>>,
) -> Option<Result<u32, ErrorView>> {
    if status != 200 {
        Some(Err(ErrorView::NumError(status)))
    } else if contains_seq(body, STATE_ERROR_MARKER@) {
        site_failure(error_caps)
    } else {
        match group_of(count_caps, 1) {
            Some(t) => match parse_u32_spec(t) {
                Some(n) => Some(Ok(n)),
                None => None,
            },
            None => None,
        }
    }
}

/// What the reply to a favourite request means (see [`favourite_reply_of`]).
pub open spec fn favourite_outcome_of(status: u16, body: Seq<char>) -> Option<Result<u32, ErrorView>> {
    favourite_reply_of(
        status,
        body,
        regex_captures_of(SITE_ERROR_PATTERN@, body),
        regex_captures_of(FAVOURITE_COUNT_PATTERN@, body),
    )
}

/// Reads the reply to a favourite request, given its status, its body and
/// the capture results of [`SITE_ERROR_PATTERN`] and
/// [`FAVOURITE_COUNT_PATTERN`] on the body.
pub fn favourite_reply(
    status: u16,
    body: &str,
    error_caps: &Option<Vec<Option<String>>>,
    count_caps: &Option<Vec<Option<String>>>,
) -> (r: Option<Result<u32, TabunError>>)
    ensures
        count_outcome_view(r) == favourite_reply_of(
            status,
            body@,
            error_caps.deep_view(),
            count_caps.deep_view(),
        ),
{
    if status != 200 {
        return Some(Err(TabunError::from_status(status)));
    }
    if contains(body, STATE_ERROR_MARKER) {
        match site_error(error_caps) {
            Some(e) => Some(Err(e)),
            None => None,
        }
    } else {
        match group_at(count_caps, 1) {
            Some(t) => match parse_u32(t.as_str()) {
                Some(n) => Some(Ok(n)),
                None => None,
            },
            None => None,
        }
    }
}

/// Reads the reply to a favourite request.
pub fn favourite_outcome(status: u16, body: &str) -> (r: Option<Result<u32, TabunError>>)
    ensures
        count_outcome_view(r) == favourite_outcome_of(status, body@),
{
    let error_caps = regex_captures(SITE_ERROR_PATTERN, body);
    let count_caps = regex_captures(FAVOURITE_COUNT_PATTERN, body);
    favourite_reply(status, body, &error_caps, &count_caps)
}

/// A favourite reply with a status other than 200 is that status as an
/// error, whatever its body. With status 200, a body that does not carry
/// [`STATE_ERROR_MARKER`] is a success: its result is the count in group 1 of
/// the count pattern, whatever the site's title and message say (an ordinary
/// success reply carries a notice in them too); it is never an error. A
/// marked body is never a success: it is the site's error, whatever the
/// count capture holds.
pub proof fn law_favourite_reply(
    status: u16,
    body: Seq<char>,
    error_caps: Option<Seq<Option<Seq<char>>>>,
    other_error_caps: Option<Seq<Option<Seq<char>>>>,
    count_caps: Option<Seq<Option<Seq<char>>>>,
    other_count_caps: Option<Seq<Option<Seq<char>>>>,
)
    ensures
        status != 200 ==> favourite_reply_of(status, body, error_caps, count_caps) == Some(
            Err::<u32, ErrorView>(ErrorView::NumError(status)),
        ),
        status == 200 && !contains_seq(body, STATE_ERROR_MARKER@) ==> {
            &&& favourite_reply_of(status, body, error_caps, count_caps) == favourite_reply_of(
                status,
                body,
                other_error_caps,
                count_caps,
            )
            &&& !(favourite_reply_of(status, body, error_caps, count_caps) matches Some(Err(_)))
            &&& group_of(count_caps, 1) is Some && parse_u32_spec(group_of(count_caps, 1)->0) is Some
                ==> favourite_reply_of(status, body, error_caps, count_caps) == Some(
                Ok::<u32, ErrorView>(parse_u32_spec(group_of(count_caps, 1)->0)->0),
            )
        },
        status == 200 && contains_seq(body, STATE_ERROR_MARKER@) ==> {
            &&& favourite_reply_of(status, body, error_caps, count_caps) == favourite_reply_of(
                status,
                body,
                error_caps,
                other_count_caps,
            )
            &&& !(favourite_reply_of(status, body, error_caps, count_caps) matches Some(Ok(_)))
            &&& site_error_of(error_caps) is Some ==> favourite_reply_of(
                status,
                body,
                error_caps,
                count_caps,
            ) == Some(Err::<u32, ErrorView>(site_error_of(error_caps)->0))
        },
{
}

/// A login reply that mentions `Hacking` is the site refusing an attack,
/// whatever else it holds; otherwise a reply without the site's error is a
/// success, and one with it is that error, never a success.
pub proof fn law_login_reply(
    body: Seq<char>,
    error_caps: Option<Seq<Option<Seq<char>>>>,
    other_error_caps: Option<Seq<Option<Seq<char>>>>,
)
    ensures
        contains_seq(body, HACKING_MARKER@) ==> login_reply_of(body, error_caps) == Some(
            Err::<(), ErrorView>(ErrorView::HackingAttempt),
        ) && login_reply_of(body, other_error_caps) == login_reply_of(body, error_caps),
        !contains_seq(body, HACKING_MARKER@) && error_caps is None ==> login_reply_of(
            body,
            error_caps,
        ) == Some(Ok::<(), ErrorView>(())),
        !contains_seq(body, HACKING_MARKER@) && error_caps is Some ==> {
            &&& !(login_reply_of(body, error_caps) matches Some(Ok(_)))
            &&& site_error_of(error_caps) is Some ==> login_reply_of(body, error_caps) == Some(
                Err::<(), ErrorView>(site_error_of(error_caps)->0),
            )
        },
{
}

/// Where the image pattern matches, an upload reply is the image's address
/// with every backslash removed and nothing else changed, whatever the
/// error capture holds; where it does not, the reply is the site's error,
/// or an unreadable page (step 1) where the error pattern does not match
/// either. A successful upload never answers an address with a backslash.
pub proof fn law_upload_reply(
    image_caps: Option<Seq<Option<Seq<char>>>>,
    error_caps: Option<Seq<Option<Seq<char>>>>,
    other_error_caps: Option<Seq<Option<Seq<char>>>>,
)
    ensures
        image_caps is Some ==> upload_reply_of(image_caps, error_caps) == upload_reply_of(
            image_caps,
            other_error_caps,
        ),
        group_of(image_caps, 1) matches Some(url) ==> {
            &&& upload_reply_of(image_caps, error_caps) == Some(
                Ok::<Seq<char>, ErrorView>(remove_char(url, '\\')),
            )
            &&& (forall|i: int| 0 <= i < url.len() ==> url[i] != '\\') ==> upload_reply_of(
                image_caps,
                error_caps,
            ) == Some(Ok::<Seq<char>, ErrorView>(url))
        },
        upload_reply_of(image_caps, error_caps) matches Some(Ok(a)) ==> forall|i: int|
            0 <= i < a.len() ==> a[i] != '\\',
        image_caps is None && error_caps is None ==> upload_reply_of(image_caps, error_caps)
            == Some(Err::<Seq<char>, ErrorView>(unparsable(upload_place(), 1))),
        image_caps is None && site_error_of(error_caps) is Some ==> upload_reply_of(
            image_caps,
            error_caps,
        ) == Some(Err::<Seq<char>, ErrorView>(site_error_of(error_caps)->0)),
{
    if let Some(url) = group_of(image_caps, 1) {
        law_remove_char(url, '\\');
    }
}

} // verus!
