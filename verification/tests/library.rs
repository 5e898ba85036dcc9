use libtabun::cookies::CookieJar;
use libtabun::pages::{
    blog_id_on_page, key_from_root, login_page_key, profile_on_page, username_from,
    username_on_page,
};
use libtabun::profile::{
    read_blog_id, read_profile, user_id, FactLine, FactValue, ProfilePage, StrengthArea,
};
use libtabun::replies::{
    captured, favourite_outcome, favourite_reply, group_at, login_outcome, login_reply,
    parse_text_to_res, security_key, site_error, upload_outcome, upload_reply,
};
use libtabun::site::{
    blog_path, check_get_status, check_post_status, credentials, favourite_form, favourite_path,
    login_form, profile_path, site_url, upload_form, urlencoded_body, HOST_URL,
};
use libtabun::text::{contains, decimal_string, parse_u32, split_on, without_char};
use libtabun::types::{Comment, Post, TabunError};

fn s(x: &str) -> String {
    x.to_string()
}

fn pairs(v: &[(&str, &str)]) -> Vec<(String, String)> {
    v.iter().map(|(a, b)| (a.to_string(), b.to_string())).collect()
}

fn is_parse_error(e: &TabunError, place: &str, step: u32) -> bool {
    match e {
        TabunError::ParseError(w, k, m) => w == place && *k == step && m == "Cannot parse page",
        _ => false,
    }
}

#[test]
fn test_parsetext_macro() {
    let r = parse_text_to_res(r"sometext (\d+) sometext", "sometext 001 sometext", 1);
    assert_eq!(r, Some(1));
}

#[test]
fn parse_text_to_res_without_match_or_group() {
    assert_eq!(parse_text_to_res(r"count (\d+)", "no number here", 1), None);
    assert_eq!(parse_text_to_res(r"count (\d+)", "count 7", 2), None);
    assert_eq!(parse_text_to_res(r"count (\d+)", "count 99999999999", 1), None);
    assert_eq!(parse_text_to_res(r"(\w+)", "abc", 1), None);
}

#[test]
fn parse_u32_follows_std() {
    for t in ["0", "7", "001", "+5", "4294967295", "4294967296", "", "+", "-5", "12a", " 1", "٣"] {
        assert_eq!(parse_u32(t), t.parse::<u32>().ok(), "input {:?}", t);
    }
}

#[test]
fn decimal_string_spells_numbers() {
    assert_eq!(decimal_string(0), "0");
    assert_eq!(decimal_string(193), "193");
    assert_eq!(decimal_string(u32::MAX), "4294967295");
}

#[test]
fn decimal_roundtrip_law() {
    for n in [0u32, 1, 9, 10, 15558, 4294967295] {
        assert_eq!(parse_u32(&decimal_string(n)), Some(n));
    }
}

#[test]
fn contains_finds_substrings() {
    assert!(contains("Создал блоги:", "Создал"));
    assert!(contains("abc", ""));
    assert!(contains("", ""));
    assert!(!contains("", "a"));
    assert!(!contains("ab", "abc"));
    assert!(contains("xxabc", "abc"));
}

#[test]
fn split_on_matches_std() {
    for t in ["a_b_c", "", "_", "__x", "vote_total_blog_193", "Друзья (12)"] {
        let expected: Vec<String> = t.split('_').map(|p| p.to_string()).collect();
        assert_eq!(split_on(t, '_'), expected, "input {:?}", t);
    }
}

#[test]
fn without_char_matches_std() {
    for t in ["Дата рождения:", "a:b:c", "", "12)"] {
        assert_eq!(without_char(t, ':'), t.replace(":", ""));
    }
    assert_eq!(without_char("12)", ')'), "12");
}

#[test]
fn comment_and_post_as_text() {
    let c = Comment {
        body: s("hi"),
        id: 42,
        author: s("pony"),
        date: s(""),
        votes: 0,
        parent: 0,
        post_id: 1,
        deleted: false,
    };
    assert_eq!(c.to_display_string(), "Comment(42,\"pony\",\"hi\")");
    let p = Post {
        title: s("t"),
        body: s("text"),
        date: s(""),
        tags: vec![],
        comments_count: 0,
        author: s("me"),
        id: 7,
    };
    assert_eq!(p.to_display_string(), "Post(7,\"me\",\"text\")");
}

#[test]
fn security_key_from_login_page() {
    let page = "<html><head><script>var LIVESTREET_SECURITY_KEY = 'abc123';</script></head></html>";
    assert_eq!(security_key(page), Some(s("abc123")));
    assert_eq!(security_key("<html></html>"), None);
    match login_page_key(page) {
        Some(Ok(k)) => assert_eq!(k, "abc123"),
        _ => panic!("key expected"),
    }
    assert!(login_page_key("<p>no key</p>").is_none());
}

#[test]
fn key_from_found_root() {
    let caps = Some(vec![Some(s("LIVESTREET_SECURITY_KEY = 'k1'")), Some(s("k1"))]);
    match key_from_root(&Some(s("<head></head>")), &caps) {
        Some(Ok(k)) => assert_eq!(k, "k1"),
        _ => panic!("key expected"),
    }
    assert!(key_from_root(&Some(s("<head></head>")), &None).is_none());
    assert!(key_from_root(&Some(s("<head></head>")), &Some(vec![Some(s("x")), None])).is_none());
    match key_from_root(&None, &caps) {
        Some(Err(TabunError::ParseError(place, step, _))) => {
            assert_eq!(place, "new");
            assert_eq!(step, 1);
        }
        _ => panic!("parse error expected"),
    }
}

#[test]
fn username_from_found_text() {
    match username_from(Some(s("Orhideous"))) {
        Ok(name) => assert_eq!(name, "Orhideous"),
        Err(e) => panic!("name expected: {:?}", e),
    }
    match username_from(None) {
        Err(TabunError::ParseError(place, step, _)) => {
            assert_eq!(place, "login");
            assert_eq!(step, 1);
        }
        _ => panic!("parse error expected"),
    }
}

#[test]
fn capture_groups_by_index() {
    let caps = Some(vec![Some(s("ab")), None, Some(s("b"))]);
    assert_eq!(group_at(&caps, 0), Some(s("ab")));
    assert_eq!(group_at(&caps, 1), None);
    assert_eq!(group_at(&caps, 2), Some(s("b")));
    assert_eq!(group_at(&caps, 3), None);
    assert_eq!(group_at(&None, 0), None);
}

#[test]
fn captured_groups() {
    assert_eq!(captured("a(b)(c)?", "ab", 1), Some(s("b")));
    assert_eq!(captured("a(b)(c)?", "ab", 2), None);
    assert_eq!(captured("a(b)(c)?", "xx", 0), None);
}

#[test]
fn login_outcomes() {
    match login_outcome("Hacking attempt!") {
        Some(Err(TabunError::HackingAttempt)) => {},
        _ => panic!("hacking expected"),
    }
    // the marker wins over a readable error
    match login_outcome("{\"sMsgTitle\":\"a\",\"sMsg\":\"b\"} Hacking") {
        Some(Err(TabunError::HackingAttempt)) => {},
        _ => panic!("hacking expected"),
    }
    match login_outcome("{\"sMsgTitle\":\"Ошибка\",\"sMsg\":\"Неверный \\u0070ароль\"}") {
        Some(Err(TabunError::Error(t, m))) => {
            assert_eq!(t, "Ошибка");
            assert_eq!(m, "Неверный pароль");
        },
        _ => panic!("site error expected"),
    }
    match login_outcome("{\"bStateError\":false}") {
        Some(Ok(())) => {},
        _ => panic!("success expected"),
    }
    assert!(login_outcome("{\"sMsgTitle\":\"bad \\q\",\"sMsg\":\"x\"}").is_none());
}

#[test]
fn upload_outcomes() {
    match upload_outcome("{\"sText\":\"<img src=\\&quot;https://cdn/x.png\\&quot; />\"}") {
        Some(Ok(url)) => assert_eq!(url, "https://cdn/x.png"),
        _ => panic!("address expected"),
    }
    match upload_outcome(r#"{"sText":"<img src=\&quot;https:\/\/x.org\/a.png\&quot; />"}"#) {
        Some(Ok(url)) => assert_eq!(url, "https://x.org/a.png"),
        _ => panic!("address expected"),
    }
    match upload_outcome("{\"sMsgTitle\":\"Ошибка\",\"sMsg\":\"Too big\"}") {
        Some(Err(TabunError::Error(t, m))) => {
            assert_eq!(t, "Ошибка");
            assert_eq!(m, "Too big");
        },
        _ => panic!("site error expected"),
    }
    match upload_outcome("nothing") {
        Some(Err(e)) => assert!(is_parse_error(&e, "upload_image_from_url", 1)),
        _ => panic!("parse error expected"),
    }
}

#[test]
fn favourite_outcomes() {
    match favourite_outcome(404, "{\"iCount\":3}") {
        Some(Err(TabunError::NumError(404))) => {},
        _ => panic!("status error expected"),
    }
    match favourite_outcome(301, "{\"iCount\":3}") {
        Some(Err(TabunError::NumError(301))) => {},
        _ => panic!("status error expected"),
    }
    match favourite_outcome(200, "{\"bStateError\":false,\"iCount\":12}") {
        Some(Ok(n)) => assert_eq!(n, 12),
        _ => panic!("count expected"),
    }
    match favourite_outcome(200, "{\"bStateError\":true,\"sMsgTitle\":\"Ошибка\",\"sMsg\":\"Нельзя\"}") {
        Some(Err(TabunError::Error(t, m))) => {
            assert_eq!(t, "Ошибка");
            assert_eq!(m, "Нельзя");
        },
        _ => panic!("site error expected"),
    }
    assert!(favourite_outcome(200, "{\"bStateError\":true}").is_none());
    assert!(favourite_outcome(200, "{}").is_none());
}

#[test]
fn addresses_and_forms() {
    assert_eq!(HOST_URL, "https://tabun.everypony.ru");
    assert_eq!(site_url("/login"), "https://tabun.everypony.ru/login");
    assert_eq!(blog_path("lighthouse"), "/blog/lighthouse");
    assert_eq!(profile_path(Some("Orhideous"), "me"), "/profile/Orhideous");
    assert_eq!(profile_path(None, "me"), "/profile/me");
    assert_eq!(favourite_path(true), "/ajax/favourite/comment/");
    assert_eq!(favourite_path(false), "/ajax/favourite/topic/");
    assert_eq!(
        login_form("u", "p", "k"),
        pairs(&[
            ("login", "u"),
            ("password", "p"),
            ("return-path", "https://tabun.everypony.ru"),
            ("remember", "on"),
            ("security_ls_key", "k"),
        ])
    );
    assert_eq!(
        upload_form("http://x/y.png", "k"),
        pairs(&[("title", ""), ("img_url", "http://x/y.png"), ("security_ls_key", "k")])
    );
    assert_eq!(
        favourite_form(15, true, true, "k"),
        pairs(&[("idComment", "15"), ("type", "1"), ("security_ls_key", "k")])
    );
    assert_eq!(
        favourite_form(3, false, false, "k"),
        pairs(&[("idTopic", "3"), ("type", "0"), ("security_ls_key", "k")])
    );
    assert_eq!(
        urlencoded_body(&login_form("u", "p w", "k")),
        "login=u&password=p+w&return-path=https%3A%2F%2Ftabun.everypony.ru&remember=on&security_ls_key=k"
    );
}

#[test]
fn status_checks() {
    assert!(check_get_status(200).is_ok());
    assert!(matches!(check_get_status(301), Err(TabunError::NumError(301))));
    assert!(matches!(check_get_status(404), Err(TabunError::NumError(404))));
    assert!(check_post_status(200).is_ok());
    assert!(check_post_status(301).is_ok());
    assert!(matches!(check_post_status(403), Err(TabunError::NumError(403))));
}

#[test]
fn credentials_need_both() {
    assert_eq!(credentials(Some(s("a")), Some(s("b"))), Some((s("a"), s("b"))));
    assert_eq!(credentials(Some(s("a")), None), None);
    assert_eq!(credentials(None, Some(s("b"))), None);
    assert_eq!(credentials(None, None), None);
}

#[test]
fn blog_ids() {
    assert_eq!(read_blog_id(Some(s("vote_total_blog_193"))).ok(), Some(193));
    assert_eq!(read_blog_id(Some(s("193"))).ok(), Some(193));
    match read_blog_id(Some(s("vote_total_blog_"))) {
        Err(e) => assert!(is_parse_error(&e, "get_blog_id", 1)),
        _ => panic!("error expected"),
    }
    match read_blog_id(None) {
        Err(e) => assert!(is_parse_error(&e, "get_blog_id", 1)),
        _ => panic!("error expected"),
    }
    let page = "<div class=\"vote-item vote-count\"><span id=\"vote_total_blog_15558\">+7</span></div>";
    assert_eq!(blog_id_on_page(page).ok(), Some(15558));
    assert!(blog_id_on_page("<div></div>").is_err());
}

#[test]
fn blog_id_law_on_values() {
    for (prefix, n) in [("", 0u32), ("vote_total_blog", 193), ("a_b", 4294967295)] {
        let id = format!("{}_{}", prefix, n);
        assert_eq!(read_blog_id(Some(id)).ok(), Some(n));
    }
}

#[test]
fn user_ids() {
    assert_eq!(user_id("vote_area_12345"), Some(12345));
    assert_eq!(user_id("vote_area"), None);
    assert_eq!(user_id("vote_area_x"), None);
    assert_eq!(user_id("a_b_7_9"), Some(7));
}

#[test]
fn username_from_page() {
    let page = "<div><a class=\"username\" href=\"/profile/x\">Pony</a></div>";
    assert_eq!(username_on_page(page).ok(), Some(s("Pony")));
    match username_on_page("<div></div>") {
        Err(e) => assert!(is_parse_error(&e, "login", 1)),
        _ => panic!("error expected"),
    }
}

fn line(label: &str, text: &str, links: &[&str]) -> FactLine {
    FactLine {
        label: Some(s(label)),
        value: Some(FactValue {
            text: s(text),
            links: links.iter().map(|l| s(l)).collect(),
        }),
    }
}

fn page_with(dotted: Option<Vec<FactLine>>, nav: Vec<Option<String>>) -> ProfilePage {
    ProfilePage {
        username: Some(s("Orhideous")),
        realname: None,
        strength: Some(StrengthArea { text: s("12.5"), id: Some(s("user_skill_2")) }),
        rating: Some(s("3.0")),
        userpic: Some(s("//cdn/a.png")),
        description: Some(s("<p>hi</p>")),
        dotted,
        nav,
    }
}

#[test]
fn profile_from_findings() {
    let page = page_with(
        Some(vec![
            line("Создал:", "x", &["a", "b"]),
            line("Состоит в:", "y", &["c"]),
            line("Дата рождения:", "1 января", &[]),
            line("Дата рождения:", "2 января", &[]),
        ]),
        vec![
            Some(s("Инфо")),
            Some(s("Публикации (12)")),
            Some(s("Избранное (3)")),
            Some(s("Друзья (5)")),
            Some(s("Стена")),
        ],
    );
    let p = match read_profile(page) {
        Ok(p) => p,
        Err(e) => panic!("profile expected: {:?}", e),
    };
    assert_eq!(p.username, "Orhideous");
    assert_eq!(p.realname, "");
    assert_eq!(p.skill, "12.5");
    assert_eq!(p.id, 2);
    assert_eq!(p.rating, "3.0");
    assert_eq!(p.userpic, "//cdn/a.png");
    assert_eq!(p.description, "<p>hi</p>");
    assert_eq!(p.blogs.created, vec![s("a"), s("b")]);
    assert_eq!(p.blogs.member, vec![s("c")]);
    assert!(p.blogs.admin.is_empty());
    assert!(p.blogs.moderator.is_empty());
    assert_eq!(p.other_info, vec![(s("Дата рождения"), s("2 января"))]);
    assert_eq!((p.publications, p.favourites, p.friends), (12, 3, 5));
}

#[test]
fn profile_checks_in_order() {
    let mut page = page_with(Some(vec![]), vec![]);
    page.username = None;
    assert!(is_parse_error(&read_profile(page).err().unwrap(), "get_profile", 1));

    let mut page = page_with(Some(vec![]), vec![]);
    page.strength = Some(StrengthArea { text: s("1"), id: Some(s("user_skill")) });
    assert!(is_parse_error(&read_profile(page).err().unwrap(), "get_profile", 2));

    let mut page = page_with(Some(vec![]), vec![]);
    page.rating = None;
    assert!(is_parse_error(&read_profile(page).err().unwrap(), "get_profile", 3));

    let mut page = page_with(Some(vec![]), vec![]);
    page.userpic = None;
    assert!(is_parse_error(&read_profile(page).err().unwrap(), "get_profile", 4));

    let mut page = page_with(Some(vec![]), vec![]);
    page.description = None;
    assert!(is_parse_error(&read_profile(page).err().unwrap(), "get_profile", 5));

    let page = page_with(None, vec![]);
    assert!(is_parse_error(&read_profile(page).err().unwrap(), "get_profile", 6));

    let page = page_with(Some(vec![FactLine { label: Some(s("x")), value: None }]), vec![]);
    assert!(is_parse_error(&read_profile(page).err().unwrap(), "get_profile", 7));

    let page = page_with(Some(vec![]), vec![None]);
    assert!(is_parse_error(&read_profile(page).err().unwrap(), "get_profile", 8));

    let page = page_with(Some(vec![]), vec![Some(s("Друзья (пять)"))]);
    assert!(is_parse_error(&read_profile(page).err().unwrap(), "get_profile", 9));
}

#[test]
fn profile_from_html() {
    let html = r#"<html><body>
<div class="profile">
  <h2 itemprop="nickname">Orhideous</h2>
  <p itemprop="name">Real Name</p>
  <div class="strength"><div id="user_skill_7">31.4</div></div>
  <div class="vote-count"><span>12.0</span></div>
</div>
<div class="profile-info-about">
  <a class="avatar"><img src="//cdn/ava.png"></a>
  <div class="text"><b>About</b></div>
</div>
<ul class="profile-dotted-list"><li><span>Дата:</span><strong>1 мая</strong></li></ul>
<ul class="profile-dotted-list">
  <li><span>Создал:</span><strong><a>one</a>, <a>two</a></strong></li>
  <li><span>Модерирует:</span><strong><a>three</a></strong></li>
  <li><span>Был:</span><strong>вчера</strong></li>
</ul>
<ul class="nav-profile">
  <li><a>Инфо</a></li>
  <li><a>Публикации (4)</a></li>
  <li><a>Друзья (9)</a></li>
</ul>
</body></html>"#;
    let p = match profile_on_page(html) {
        Ok(p) => p,
        Err(e) => panic!("profile expected: {:?}", e),
    };
    assert_eq!(p.username, "Orhideous");
    assert_eq!(p.realname, "Real Name");
    assert_eq!(p.skill, "31.4");
    assert_eq!(p.id, 7);
    assert_eq!(p.rating, "12.0");
    assert_eq!(p.userpic, "//cdn/ava.png");
    assert_eq!(p.description, "<b>About</b>");
    assert_eq!(p.blogs.created, vec![s("one"), s("two")]);
    assert_eq!(p.blogs.moderator, vec![s("three")]);
    assert_eq!(p.other_info, vec![(s("Был"), s("вчера"))]);
    assert_eq!((p.publications, p.favourites, p.friends), (4, 0, 9));
    assert!(profile_on_page("<html></html>").is_err());
}

#[test]
fn cookie_jar_keeps_latest() {
    let mut jar = CookieJar::new();
    assert!(jar.header_values().is_empty());
    jar.apply_set_cookie("PHPSESSID=abc; path=/; HttpOnly");
    jar.apply_set_cookie("key=a=b");
    jar.apply_set_cookie("no value here");
    jar.apply_set_cookie("PHPSESSID=def");
    assert_eq!(jar.header_values(), vec![s("PHPSESSID=def"), s("key=a=b")]);
}

fn caps(groups: &[Option<&str>]) -> Option<Vec<Option<String>>> {
    Some(groups.iter().map(|g| g.map(|t| t.to_string())).collect())
}

#[test]
fn replies_from_captures() {
    assert!(matches!(site_error(&caps(&[Some("x"), Some("T"), Some("M")])), Some(TabunError::Error(ref t, ref m)) if t == "T" && m == "M"));
    assert!(site_error(&caps(&[Some("x"), Some("T")])).is_none());
    assert!(site_error(&None).is_none());

    assert!(matches!(login_reply("Hacking", &None), Some(Err(TabunError::HackingAttempt))));
    assert!(matches!(login_reply("{}", &None), Some(Ok(()))));
    assert!(matches!(login_reply("{}", &caps(&[Some("x"), Some("T"), Some("M")])), Some(Err(TabunError::Error(_, _)))));
    assert!(login_reply("{}", &caps(&[Some("x"), Some("T"), Some("\\q")])).is_none());

    match upload_reply(&caps(&[Some("whole"), Some("https:\\/\\/a\\/b.png")]), &None) {
        Some(Ok(url)) => assert_eq!(url, "https://a/b.png"),
        _ => panic!("address expected"),
    }
    assert!(upload_reply(&caps(&[Some("whole")]), &None).is_none());
    match upload_reply(&None, &None) {
        Some(Err(e)) => assert!(is_parse_error(&e, "upload_image_from_url", 1)),
        _ => panic!("parse error expected"),
    }
    assert!(matches!(upload_reply(&None, &caps(&[Some("x"), Some("T"), Some("M")])), Some(Err(TabunError::Error(_, _)))));

    assert!(matches!(favourite_reply(500, "", &None, &None), Some(Err(TabunError::NumError(500)))));
    assert!(matches!(favourite_reply(200, "{}", &None, &caps(&[Some("x"), Some("42")])), Some(Ok(42))));
    assert!(favourite_reply(200, "{}", &None, &caps(&[Some("x"), Some("4x")])).is_none());
    assert!(favourite_reply(200, "{\"bStateError\":true}", &None, &caps(&[Some("x"), Some("1")])).is_none());
    assert!(matches!(favourite_reply(200, "{\"bStateError\":true}", &caps(&[Some("x"), Some("T"), Some("M")]), &None), Some(Err(TabunError::Error(_, _)))));
}

#[test]
fn cookie_header_sends_each_name_once() {
    let mut jar = CookieJar::new();
    jar.apply_set_cookie("a=1");
    jar.apply_set_cookie("b=2");
    jar.apply_set_cookie("a=3");
    jar.apply_set_cookie("b=4; path=/");
    assert_eq!(jar.header_values(), vec![s("a=3"), s("b=4")]);
}
