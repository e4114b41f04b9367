use lbd_bot::api::{api_results, canonical, decimal, new_params, signed_url, unsigned_url, SignedRequestParams};
use lbd_bot::dispatch::{check_status, on_update, reply_for, usage_text, Action, LookupOutcome, Strategy, Update};
use lbd_bot::mapper::{api_articles, articles, attr_value, film_to_article, get_node_attr, node_to_article};
use lbd_bot::scrape::{page_articles, search, search_page_url};
use lbd_bot::signer::{sign, to_hex};
use lbd_bot::types::{ApiFilm, ApiItem, Field, InlineQuery, LookupError, ResultNode, SearchResult};

const BASE: &str = "https://letterboxd.com";

fn node_html(link: &str, id: &str, name: Option<&str>, year: &str, img: Option<&str>) -> String {
    let name_attr = match name {
        Some(n) => format!(" data-film-name=\"{}\"", n),
        None => String::new(),
    };
    let img_tag = match img {
        Some(src) => format!("<img src=\"{}\">", src),
        None => String::new(),
    };
    format!(
        "<div data-target-link=\"{}\" data-film-id=\"{}\"{} data-film-release-year=\"{}\">{}</div>",
        link, id, name_attr, year, img_tag
    )
}

fn page(nodes: &[String]) -> String {
    format!(
        "<html><body><div class=\"header\"><div data-film-name=\"Decoy\"></div></div><ul class=\"results\">{}</ul></body></html>",
        nodes.iter().map(|n| format!("<li>{}</li>", n)).collect::<String>()
    )
}

fn pair(k: &str, v: &str) -> (String, String) {
    (k.to_string(), v.to_string())
}

fn full_node(id: &str, name: &str) -> ResultNode {
    ResultNode {
        attrs: vec![
            pair("data-target-link", &format!("/film/{}/", id)),
            pair("data-film-id", id),
            pair("data-film-name", name),
            pair("data-film-release-year", "2001"),
        ],
        images: vec![],
    }
}

fn film(id: Option<&str>, name: Option<&str>, sizes: &[&str], links: &[&str]) -> ApiFilm {
    ApiFilm {
        id: id.map(|s| s.to_string()),
        name: name.map(|s| s.to_string()),
        poster_sizes: sizes.iter().map(|s| s.to_string()).collect(),
        links: links.iter().map(|s| s.to_string()).collect(),
    }
}

fn ids(v: &[SearchResult]) -> Vec<String> {
    v.iter().map(|r| r.id.clone()).collect()
}

#[test]
fn scrape_three_results_in_document_order() {
    let html = page(&[
        node_html("/film/alien/", "11", Some("Alien"), "1979", Some("https://img/alien.jpg")),
        node_html("/film/aliens/", "12", Some("Aliens"), "1986", None),
        node_html("/film/alien-3/", "13", Some("Alien 3"), "1992", None),
    ]);
    let r = search(BASE, &html).0;
    assert_eq!(ids(&r), vec!["11", "12", "13"]);
    assert_eq!(r[0].title, "Alien (1979)");
    assert_eq!(r[0].subtitle, "1979");
    assert_eq!(r[0].target_url, "https://letterboxd.com/film/alien/");
    assert_eq!(r[0].thumbnail_url, Some("https://img/alien.jpg".to_string()));
    assert_eq!(r[1].thumbnail_url, None);
    assert_eq!(r[2].title, "Alien 3 (1992)");
}

#[test]
fn scrape_node_without_film_name_gives_no_result() {
    let html = page(&[node_html("/film/x/", "1", None, "2000", None)]);
    let r = search(BASE, &html).0;
    assert_eq!(r.len(), 0);
}

#[test]
fn scrape_empty_page_gives_no_result() {
    assert_eq!(search(BASE, "").0.len(), 0);
    assert_eq!(search(BASE, "<p>nothing</p>").0.len(), 0);
}

#[test]
fn scrape_drops_only_the_record_missing_a_field() {
    let mut broken = node_html("/film/b/", "2", Some("B"), "2002", None);
    broken = broken.replace(" data-film-id=\"2\"", "");
    let html = page(&[
        node_html("/film/a/", "1", Some("A"), "2001", None),
        broken,
        node_html("/film/c/", "3", Some("C"), "2003", None),
    ]);
    let r = search(BASE, &html).0;
    assert_eq!(ids(&r), vec!["1", "3"]);
}

#[test]
fn scrape_caps_at_ten() {
    let nodes: Vec<String> = (0..12)
        .map(|i| node_html(&format!("/film/{}/", i), &i.to_string(), Some("F"), "2000", None))
        .collect();
    let r = search(BASE, &page(&nodes)).0;
    assert_eq!(r.len(), 10);
    assert_eq!(r[9].id, "9");
}

#[test]
fn scrape_cap_counts_marked_nodes_not_results() {
    let mut nodes: Vec<String> = (0..10)
        .map(|i| node_html(&format!("/film/{}/", i), &i.to_string(), Some("F"), "2000", None))
        .collect();
    nodes[0] = nodes[0].replace(" data-film-release-year=\"2000\"", "");
    nodes.push(node_html("/film/10/", "10", Some("F"), "2000", None));
    let r = search(BASE, &page(&nodes)).0;
    assert_eq!(r.len(), 9);
    assert_eq!(r[0].id, "1");
}

#[test]
fn node_to_article_maps_and_reports_missing_field() {
    let n = full_node("7", "Heat");
    let r = node_to_article(BASE, &n).unwrap();
    assert_eq!(r.id, "7");
    assert_eq!(r.title, "Heat (2001)");
    assert_eq!(r.target_url, "https://letterboxd.com/film/7/");
    let mut m = full_node("8", "Ran");
    m.attrs.remove(2);
    assert!(matches!(node_to_article(BASE, &m), Err(LookupError::MissingField(Field::FilmName))));
    let mut e = full_node("9", "Ran");
    e.attrs[0].1 = String::new();
    let r = node_to_article(BASE, &e).unwrap();
    assert_eq!(r.target_url, "https://letterboxd.com");
    assert!(matches!(node_to_article("", &e), Err(LookupError::MissingField(Field::TargetLink))));
    assert_eq!(node_to_article("", &n).unwrap().target_url, "/film/7/");
}

#[test]
fn thumbnail_is_first_image_with_src() {
    let mut n = full_node("7", "Heat");
    n.images = vec![vec![pair("alt", "none")], vec![pair("src", "p1")], vec![pair("src", "p2")]];
    let r = node_to_article(BASE, &n).unwrap();
    assert_eq!(r.thumbnail_url, Some("p1".to_string()));
}

#[test]
fn articles_keep_order_and_drop_incomplete() {
    let mut bad = full_node("2", "B");
    bad.attrs.pop();
    let (r, skipped) = articles(BASE, &vec![full_node("1", "A"), bad, full_node("3", "C")]);
    assert_eq!(skipped, vec![Field::ReleaseYear]);
    assert_eq!(ids(&r), vec!["1", "3"]);
}

#[test]
fn attr_value_first_match_wins() {
    let attrs = vec![pair("a", "1"), pair("b", "2"), pair("a", "3")];
    assert_eq!(attr_value(&attrs, "a"), Some("1".to_string()));
    assert_eq!(attr_value(&attrs, "b"), Some("2".to_string()));
    assert_eq!(attr_value(&attrs, "c"), None);
}

#[test]
fn api_dune_record() {
    let items = vec![ApiItem { film: Some(film(Some("1"), Some("Dune"), &[], &["https://x/1"])) }];
    let r = api_results(&items).0;
    assert_eq!(r.len(), 1);
    assert_eq!(r[0].id, "1");
    assert_eq!(r[0].title, "Dune");
    assert_eq!(r[0].target_url, "https://x/1");
    assert_eq!(r[0].thumbnail_url, None);
}

#[test]
fn api_thumbnail_is_first_poster_size() {
    let f = film(Some("2"), Some("Heat"), &["https://p/s", "https://p/m"], &["https://x/2", "https://y/2"]);
    let r = film_to_article(&f).unwrap();
    assert_eq!(r.thumbnail_url, Some("https://p/s".to_string()));
    assert_eq!(r.target_url, "https://x/2");
    assert_eq!(r.subtitle, "");
}

#[test]
fn api_skips_items_without_film_or_fields() {
    let items = vec![
        ApiItem { film: None },
        ApiItem { film: Some(film(Some("1"), Some("A"), &[], &[])) },
        ApiItem { film: Some(film(None, Some("B"), &[], &["https://x/2"])) },
        ApiItem { film: Some(film(Some("3"), None, &[], &["https://x/3"])) },
        ApiItem { film: Some(film(Some("4"), Some("D"), &[], &["https://x/4"])) },
    ];
    let (r, skipped) = api_articles(&items);
    assert_eq!(skipped, vec![Field::ApiLink, Field::ApiId, Field::ApiName]);
    assert_eq!(ids(&r), vec!["4"]);
    assert!(matches!(
        film_to_article(&film(Some("1"), Some("A"), &[], &[])),
        Err(LookupError::MissingField(Field::ApiLink))
    ));
}

#[test]
fn api_results_cap_at_five() {
    let items: Vec<ApiItem> = (0..7)
        .map(|i| {
            let id = i.to_string();
            let link = format!("https://x/{}", i);
            ApiItem { film: Some(film(Some(&id), Some("F"), &[], &[&link])) }
        })
        .collect();
    let r = api_results(&items).0;
    assert_eq!(ids(&r), vec!["0", "1", "2", "3", "4"]);
}

#[test]
fn sign_matches_hmac_sha256_vector() {
    let r = sign(b"Jefe", "what do ya want for nothing?").unwrap();
    assert_eq!(r, "5bdcc146bf60754e6a042426089575c75a003f089d2739839dec58b964ec3843");
}

#[test]
fn sign_is_deterministic_and_input_sensitive() {
    let a = sign(b"secret", "GET\0u\0").unwrap();
    assert_eq!(a, sign(b"secret", "GET\0u\0").unwrap());
    assert_ne!(a, sign(b"secret", "GET\0v\0").unwrap());
    assert_ne!(a, sign(b"secreu", "GET\0u\0").unwrap());
    assert_eq!(a.len(), 64);
    assert!(a.chars().all(|c| c.is_ascii_digit() || ('a'..='f').contains(&c)));
}

#[test]
fn sign_refuses_empty_secret() {
    assert!(matches!(sign(b"", "x"), Err(LookupError::Signing)));
}

#[test]
fn hex_and_decimal() {
    assert_eq!(to_hex(&[0x00, 0xab, 0xff, 0x10]), "00abff10");
    assert_eq!(to_hex(&[]), "");
    assert_eq!(decimal(0), "0");
    assert_eq!(decimal(1234567890), "1234567890");
    assert_eq!(decimal(u64::MAX), "18446744073709551615");
}

fn params() -> SignedRequestParams {
    SignedRequestParams {
        api_key: "k".to_string(),
        nonce: "n".to_string(),
        timestamp: 42,
        query: "the thing".to_string(),
    }
}

#[test]
fn unsigned_url_has_parameters_in_order() {
    assert_eq!(
        unsigned_url("https://api", &params()),
        "https://api/search?apikey=k&nonce=n&timestamp=42&input=the%20thing&perPage=5"
    );
    assert_eq!(canonical("u"), "GET\0u\0");
}

#[test]
fn signed_url_appends_signature_of_canonical_string() {
    let u = signed_url("https://api", b"s3", &params()).unwrap();
    let unsigned = unsigned_url("https://api", &params());
    let sig = sign(b"s3", &canonical(&unsigned)).unwrap();
    assert_eq!(u, format!("{}&signature={}", unsigned, sig));
    assert!(matches!(signed_url("https://api", b"", &params()), Err(LookupError::Signing)));
}

#[test]
fn fresh_params_never_share_a_nonce() {
    let a = new_params("k", "dune", 1700000000);
    let b = new_params("k", "dune", 1700000000);
    assert_ne!(a.nonce, b.nonce);
    assert_eq!(a.nonce.len(), 36);
    for (i, c) in a.nonce.chars().enumerate() {
        if i == 8 || i == 13 || i == 18 || i == 23 {
            assert_eq!(c, '-');
        } else {
            assert!(c.is_ascii_digit() || ('a'..='f').contains(&c));
        }
    }
    assert_eq!(a.query, "dune");
    assert_eq!(a.timestamp, 1700000000);
}

#[test]
fn search_page_url_encodes_query() {
    assert_eq!(
        search_page_url(BASE, "lord of the rings"),
        "https://letterboxd.com/search/lord%20of%20the%20rings/"
    );
}

#[test]
fn timeout_emits_empty_list() {
    assert_eq!(reply_for(LookupOutcome::TimedOut).len(), 0);
}

#[test]
fn lookup_errors_emit_empty_list() {
    assert!(serde_json::from_str::<serde_json::Value>("not json").is_err());
    assert_eq!(reply_for(LookupOutcome::Finished(Err(LookupError::Parse))).len(), 0);
    assert_eq!(reply_for(LookupOutcome::Finished(Err(LookupError::Network))).len(), 0);
    let next = on_update(Update::InlineQuery(InlineQuery { id: "q2".to_string(), text: "heat".to_string() }));
    assert!(matches!(next, Action::Lookup(q) if q.id == "q2" && q.text == "heat"));
}

#[test]
fn success_forwards_list_in_order() {
    let (v, _) = api_results(&vec![
        ApiItem { film: Some(film(Some("1"), Some("A"), &[], &["https://x/1"])) },
        ApiItem { film: Some(film(Some("2"), Some("B"), &[], &["https://x/2"])) },
    ]);
    let r = reply_for(LookupOutcome::Finished(Ok(v)));
    assert_eq!(ids(&r), vec!["1", "2"]);
    assert_eq!(reply_for(LookupOutcome::Finished(Ok(vec![]))).len(), 0);
}

#[test]
fn updates_are_routed() {
    assert!(matches!(on_update(Update::Message("hi".to_string())), Action::ReplyText(t) if t == usage_text()));
    assert!(matches!(on_update(Update::Other), Action::Ignore));
}

#[test]
fn status_check() {
    assert!(check_status(200).is_ok());
    assert!(check_status(204).is_ok());
    assert!(matches!(check_status(199), Err(LookupError::Network)));
    assert!(matches!(check_status(300), Err(LookupError::Network)));
    assert!(matches!(check_status(404), Err(LookupError::Network)));
}

#[test]
fn strategies() {
    assert!(matches!(Strategy::signed_api("https://api", "k", vec![]), Err(LookupError::Signing)));
    let s = Strategy::signed_api("https://api", "k", b"sec".to_vec()).unwrap();
    assert_eq!(s.cap(), 5);
    let u = s.request_url("dune", 77);
    assert!(u.starts_with("https://api/search?apikey=k&nonce="));
    assert!(u.contains("&timestamp=77&input=dune&perPage=5&signature="));
    assert_ne!(u, s.request_url("dune", 77));
    let scrape = Strategy::scrape(BASE);
    assert_eq!(scrape.cap(), 10);
    assert_eq!(scrape.request_url("heat", 77), "https://letterboxd.com/search/heat/");
}

#[test]
fn page_articles_filters_caps_and_maps() {
    let mut nodes: Vec<ResultNode> = vec![ResultNode { attrs: vec![pair("class", "poster")], images: vec![] }];
    for i in 0..12 {
        nodes.push(full_node(&i.to_string(), "F"));
    }
    nodes[1].attrs.remove(1);
    let (r, skipped) = page_articles(BASE, &nodes);
    assert_eq!(skipped, vec![Field::FilmId]);
    assert_eq!(ids(&r), vec!["1", "2", "3", "4", "5", "6", "7", "8", "9"]);
    assert_eq!(r[0].title, "F (2001)");
}

#[test]
fn missing_attribute_is_named() {
    let mut n = full_node("7", "Heat");
    n.attrs.remove(1);
    let e = node_to_article(BASE, &n).unwrap_err();
    assert_eq!(e, LookupError::MissingField(Field::FilmId));
    assert_eq!(e.message(), "missing data-film-id");
    n.attrs.clear();
    let e = node_to_article(BASE, &n).unwrap_err();
    assert_eq!(e.message(), "missing data-target-link");
    assert_eq!(LookupError::Parse.message(), "parse error");
}

#[test]
fn get_node_attr_value_or_named_error() {
    let n = full_node("7", "Heat");
    assert_eq!(get_node_attr(&n.attrs, Field::FilmName).unwrap(), "Heat");
    assert_eq!(get_node_attr(&n.attrs, Field::ReleaseYear).unwrap(), "2001");
    let e = get_node_attr(&vec![pair("data-film-id", "1")], Field::FilmName).unwrap_err();
    assert_eq!(e.message(), "missing data-film-name");
}

#[test]
fn search_reports_skipped_fields() {
    let mut broken = node_html("/film/b/", "2", Some("B"), "2002", None);
    broken = broken.replace(" data-film-release-year=\"2002\"", "");
    let html = page(&[node_html("/film/a/", "1", Some("A"), "2001", None), broken]);
    let (r, skipped) = search(BASE, &html);
    assert_eq!(ids(&r), vec!["1"]);
    assert_eq!(skipped, vec![Field::ReleaseYear]);
}
