use vstd::prelude::*;
use crate::types::{
    attrs_view, field_name, opt_view, Field, results_view, ApiFilm, ApiFilmView, ApiItem, AttrsView, LookupError,
    ResultNode, ResultNodeView, SearchResult, SearchResultView,
};

verus! {

/// The value of the first attribute called `name`, scanning from index `i`.
pub open spec fn attr_from(attrs: AttrsView, name: Seq<char>, i: int) -> Option<Seq<char>>
    decreases attrs.len() - i,
{
    if i < 0 || i >= attrs.len() {
        None
    } else if attrs[i].0 == name {
        Some(attrs[i].1)
    } else {
        attr_from(attrs, name, i + 1)
    }
}

/// The value of the first attribute called `name`, if any.
pub open spec fn attr_spec(attrs: AttrsView, name: Seq<char>) -> Option<Seq<char>> {
    attr_from(attrs, name, 0)
}

/// Looks up an attribute by name; the first one wins.
pub fn attr_value(attrs: &Vec<(String, String)>, name: &str) -> (r: Option<String>)
    ensures
        opt_view(r) == attr_spec(attrs_view(attrs@), name@),
{
    let ghost av = attrs_view(attrs@);
    let key = name.to_owned();
    let mut i: usize = 0;
    while i < attrs.len()
        invariant
            i <= attrs.len(),
            av == attrs_view(attrs@),
            key@ == name@,
            attr_from(av, name@, 0) == attr_from(av, name@, i as int),
        decreases attrs.len() - i,
    {
        assert(av[i as int] == (attrs@[i as int].0@, attrs@[i as int].1@));
        if attrs[i].0 == key {
            return Some(attrs[i].1.clone());
        }
        i = i + 1;
    }
    None
}

/// The `src` of the first image, scanning from index `i`, that has one.
pub open spec fn first_src_from(images: Seq<AttrsView>, i: int) -> Option<Seq<char>>
    decreases images.len() - i,
{
    if i < 0 || i >= images.len() {
        None
    } else {
        match attr_spec(images[i], "src"@) {
            Some(s) => Some(s),
            None => first_src_from(images, i + 1),
        }
    }
}

fn first_src(images: &Vec<Vec<(String, String)>>) -> (r: Option<String>)
    ensures
        opt_view(r) == first_src_from(
            images@.map_values(|a: Vec<(String, String)>| attrs_view(a@)),
            0,
        ),
{
    let ghost iv = images@.map_values(|a: Vec<(String, String)>| attrs_view(a@));
    let mut i: usize = 0;
    while i < images.len()
        invariant
            i <= images.len(),
            iv == images@.map_values(|a: Vec<(String, String)>| attrs_view(a@)),
            first_src_from(iv, 0) == first_src_from(iv, i as int),
        decreases images.len() - i,
    {
        assert(iv[i as int] == attrs_view(images@[i as int]@));
        let s = attr_value(&images[i], "src");
        if s.is_some() {
            return s;
        }
        i = i + 1;
    }
    None
}

/// The result a scraped node maps to, or `None` when it lacks the link,
/// id, name or year attribute. A present link may be empty: the target url
/// is then the base alone, which must itself be non-empty.
pub open spec fn scraped_result(base: Seq<char>, n: ResultNodeView) -> Option<SearchResultView> {
    let link = attr_spec(n.attrs, "data-target-link"@);
    let id = attr_spec(n.attrs, "data-film-id"@);
    let name = attr_spec(n.attrs, "data-film-name"@);
    let year = attr_spec(n.attrs, "data-film-release-year"@);
    if link is Some && id is Some && name is Some && year is Some && (base + link->0).len() > 0 {
        Some(
            SearchResultView {
                id: id->0,
                title: name->0 + " ("@ + year->0 + ")"@,
                subtitle: year->0,
                thumbnail_url: first_src_from(n.images, 0),
                target_url: base + link->0,
            },
        )
    } else {
        None
    }
}

/// Why a scraped node does not map: the first absent attribute in the order
/// link, id, name, year; else the link, when base and link are both empty.
pub open spec fn scrape_failure(base: Seq<char>, n: ResultNodeView) -> Option<Field> {
    let link = attr_spec(n.attrs, field_name(Field::TargetLink));
    if link is None {
        Some(Field::TargetLink)
    } else if attr_spec(n.attrs, field_name(Field::FilmId)) is None {
        Some(Field::FilmId)
    } else if attr_spec(n.attrs, field_name(Field::FilmName)) is None {
        Some(Field::FilmName)
    } else if attr_spec(n.attrs, field_name(Field::ReleaseYear)) is None {
        Some(Field::ReleaseYear)
    } else if (base + link->0).len() == 0 {
        Some(Field::TargetLink)
    } else {
        None
    }
}

/// The value of a node's attribute for `field`, or an error naming it.
pub fn get_node_attr(attrs: &Vec<(String, String)>, field: Field) -> (r: Result<String, LookupError>)
    ensures
        match attr_spec(attrs_view(attrs@), field_name(field)) {
            Some(v) => r matches Ok(s) && s@ == v,
            None => r == Err::<String, LookupError>(LookupError::MissingField(field)),
        },
{
    match attr_value(attrs, field.name()) {
        Some(v) => Ok(v),
        None => Err(LookupError::MissingField(field)),
    }
}

/// Maps one scraped node to a result; `base` is the catalog's domain, to
/// which the node's relative link is appended. A node that does not map is
/// reported with the first field it lacks.
pub fn node_to_article(base: &str, node: &ResultNode) -> (r: Result<SearchResult, LookupError>)
    ensures
        scraped_result(base@, node@) is None <==> scrape_failure(base@, node@) is Some,
        match r {
            Ok(res) => scraped_result(base@, node@) == Some(res@),
            Err(e) => scraped_result(base@, node@) is None && scrape_failure(base@, node@) == Some(
                e->MissingField_0,
            ) && e is MissingField,
        },
{
    let link = match get_node_attr(&node.attrs, Field::TargetLink) {
        Ok(v) => v,
        Err(e) => return Err(e),
    };
    let id = match get_node_attr(&node.attrs, Field::FilmId) {
        Ok(v) => v,
        Err(e) => return Err(e),
    };
    let name = match get_node_attr(&node.attrs, Field::FilmName) {
        Ok(v) => v,
        Err(e) => return Err(e),
    };
    let year = match get_node_attr(&node.attrs, Field::ReleaseYear) {
        Ok(v) => v,
        Err(e) => return Err(e),
    };
    if base.is_empty() && link.as_str().is_empty() {
        return Err(LookupError::MissingField(Field::TargetLink));
    }
    let mut target_url = base.to_owned();
    target_url.append(link.as_str());
    let mut title = name;
    title.append(" (");
    title.append(year.as_str());
    title.append(")");
    let res = SearchResult {
        id,
        title,
        subtitle: year,
        thumbnail_url: first_src(&node.images),
        target_url,
    };
    Ok(res)
}

/// The results of a run of scraped nodes: each node that maps, in order.
pub open spec fn scraped_batch(base: Seq<char>, nodes: Seq<ResultNodeView>) -> Seq<SearchResultView>
    decreases nodes.len(),
{
    if nodes.len() == 0 {
        Seq::empty()
    } else {
        let prev = scraped_batch(base, nodes.drop_last());
        match scraped_result(base, nodes.last()) {
            Some(r) => prev.push(r),
            None => prev,
        }
    }
}

pub open spec fn nodes_view(v: Seq<ResultNode>) -> Seq<ResultNodeView> {
    v.map_values(|n: ResultNode| n@)
}

/// The fields for which the nodes of a run are dropped, one per dropped
/// node, in order.
pub open spec fn scraped_skips(base: Seq<char>, nodes: Seq<ResultNodeView>) -> Seq<Field>
    decreases nodes.len(),
{
    if nodes.len() == 0 {
        Seq::empty()
    } else {
        let prev = scraped_skips(base, nodes.drop_last());
        match scrape_failure(base, nodes.last()) {
            Some(f) => prev.push(f),
            None => prev,
        }
    }
}

/// Maps a run of scraped nodes, dropping those that lack a required field;
/// beside the results, the field each dropped node lacked.
pub fn articles(base: &str, nodes: &Vec<ResultNode>) -> (r: (Vec<SearchResult>, Vec<Field>))
    ensures
        results_view(r.0@) == scraped_batch(base@, nodes_view(nodes@)),
        r.1@ == scraped_skips(base@, nodes_view(nodes@)),
{
    let mut out: Vec<SearchResult> = Vec::new();
    let mut skipped: Vec<Field> = Vec::new();
    let mut i: usize = 0;
    while i < nodes.len()
        invariant
            i <= nodes.len(),
            results_view(out@) == scraped_batch(base@, nodes_view(nodes@).take(i as int)),
            skipped@ == scraped_skips(base@, nodes_view(nodes@).take(i as int)),
        decreases nodes.len() - i,
    {
        let ghost before = out@;
        let ghost pre = nodes_view(nodes@).take(i as int);
        let ghost post = nodes_view(nodes@).take(i + 1);
        assert(post.drop_last() =~= pre);
        assert(post.last() == nodes@[i as int]@);
        match node_to_article(base, &nodes[i]) {
            Ok(res) => {
                out.push(res);
                assert(results_view(out@) =~= results_view(before).push(res@));
            },
            Err(LookupError::MissingField(f)) => skipped.push(f),
            Err(_) => {},
        }
        i = i + 1;
    }
    assert(nodes_view(nodes@).take(nodes.len() as int) =~= nodes_view(nodes@));
    (out, skipped)
}

/// A batch splits at any point into the batches of its two parts.
pub proof fn lemma_scraped_batch_concat(base: Seq<char>, a: Seq<ResultNodeView>, b: Seq<ResultNodeView>)
    ensures
        scraped_batch(base, a + b) == scraped_batch(base, a) + scraped_batch(base, b),
    decreases b.len(),
{
    if b.len() == 0 {
        assert(a + b =~= a);
        assert(scraped_batch(base, a) + scraped_batch(base, b) =~= scraped_batch(base, a));
    } else {
        assert((a + b).drop_last() =~= a + b.drop_last());
        assert((a + b).last() == b.last());
        lemma_scraped_batch_concat(base, a, b.drop_last());
        match scraped_result(base, b.last()) {
            Some(r) => {
                assert(scraped_batch(base, a) + scraped_batch(base, b.drop_last()).push(r)
                    =~= (scraped_batch(base, a) + scraped_batch(base, b.drop_last())).push(r));
            },
            None => {},
        }
    }
}

/// A scraped node that lacks a required field is left out, and only it: the
/// batch equals the batch of the other nodes, each mapped as before.
pub proof fn lemma_scraped_record_dropped(base: Seq<char>, nodes: Seq<ResultNodeView>, i: int)
    requires
        0 <= i < nodes.len(),
        scraped_result(base, nodes[i]) is None,
    ensures
        scraped_batch(base, nodes) == scraped_batch(base, nodes.remove(i)),
{
    let a = nodes.take(i);
    let b = nodes.skip(i + 1);
    let one = seq![nodes[i]];
    assert(nodes =~= a + one + b);
    assert(nodes.remove(i) =~= a + b);
    lemma_scraped_batch_concat(base, a + one, b);
    lemma_scraped_batch_concat(base, a, one);
    lemma_scraped_batch_concat(base, a, b);
    assert(one.drop_last() =~= Seq::<ResultNodeView>::empty());
    assert(scraped_batch(base, one.drop_last()) =~= Seq::<SearchResultView>::empty());
    assert(one.last() == nodes[i]);
    assert(scraped_batch(base, one) =~= Seq::<SearchResultView>::empty());
    assert(scraped_batch(base, a) + scraped_batch(base, one) =~= scraped_batch(base, a));
}

/// The result an API film record maps to, or `None` when it lacks the id,
/// the name or a first link.
pub open spec fn film_result(f: ApiFilmView) -> Option<SearchResultView> {
    if f.id is Some && f.name is Some && f.links.len() > 0 && f.links[0].len() > 0 {
        Some(
            SearchResultView {
                id: f.id->0,
                title: f.name->0,
                subtitle: Seq::empty(),
                thumbnail_url: if f.poster_sizes.len() > 0 {
                    Some(f.poster_sizes[0])
                } else {
                    None
                },
                target_url: f.links[0],
            },
        )
    } else {
        None
    }
}

/// The result an API item maps to: items without a film map to nothing.
pub open spec fn item_result(it: Option<ApiFilmView>) -> Option<SearchResultView> {
    match it {
        Some(f) => film_result(f),
        None => None,
    }
}

/// Why an API film does not map: the first of id, name, a non-empty first
/// link that it lacks.
pub open spec fn film_failure(f: ApiFilmView) -> Option<Field> {
    if f.id is None {
        Some(Field::ApiId)
    } else if f.name is None {
        Some(Field::ApiName)
    } else if f.links.len() == 0 || f.links[0].len() == 0 {
        Some(Field::ApiLink)
    } else {
        None
    }
}

/// Maps one API film record to a result; the first link is already absolute.
/// A film that does not map is reported with the first field it lacks.
pub fn film_to_article(film: &ApiFilm) -> (r: Result<SearchResult, LookupError>)
    ensures
        film_result(film@) is None <==> film_failure(film@) is Some,
        match r {
            Ok(res) => film_result(film@) == Some(res@),
            Err(e) => film_result(film@) is None && e is MissingField && film_failure(film@) == Some(
                e->MissingField_0,
            ),
        },
{
    let id = match &film.id {
        Some(id) => id,
        None => return Err(LookupError::MissingField(Field::ApiId)),
    };
    let name = match &film.name {
        Some(name) => name,
        None => return Err(LookupError::MissingField(Field::ApiName)),
    };
    if film.links.len() == 0 || film.links[0].as_str().is_empty() {
        return Err(LookupError::MissingField(Field::ApiLink));
    }
    let thumbnail_url = if film.poster_sizes.len() > 0 {
        Some(film.poster_sizes[0].clone())
    } else {
        None
    };
    let res = SearchResult {
        id: id.clone(),
        title: name.clone(),
        subtitle: String::new(),
        thumbnail_url,
        target_url: film.links[0].clone(),
    };
    Ok(res)
}

/// The results of a run of API items: each item that maps, in order.
pub open spec fn api_batch(items: Seq<Option<ApiFilmView>>) -> Seq<SearchResultView>
    decreases items.len(),
{
    if items.len() == 0 {
        Seq::empty()
    } else {
        let prev = api_batch(items.drop_last());
        match item_result(items.last()) {
            Some(r) => prev.push(r),
            None => prev,
        }
    }
}

pub open spec fn items_view(v: Seq<ApiItem>) -> Seq<Option<ApiFilmView>> {
    v.map_values(|it: ApiItem| it@)
}

/// The fields for which the films of a run of API items are dropped, one
/// per dropped film, in order; items without a film give none.
pub open spec fn api_skips(items: Seq<Option<ApiFilmView>>) -> Seq<Field>
    decreases items.len(),
{
    if items.len() == 0 {
        Seq::empty()
    } else {
        let prev = api_skips(items.drop_last());
        match items.last() {
            Some(f) => match film_failure(f) {
                Some(x) => prev.push(x),
                None => prev,
            },
            None => prev,
        }
    }
}

/// Maps a run of API items, dropping items without a film and films that
/// lack a required field; beside the results, the field each dropped film
/// lacked.
pub fn api_articles(items: &Vec<ApiItem>) -> (r: (Vec<SearchResult>, Vec<Field>))
    ensures
        results_view(r.0@) == api_batch(items_view(items@)),
        r.1@ == api_skips(items_view(items@)),
{
    let mut out: Vec<SearchResult> = Vec::new();
    let mut skipped: Vec<Field> = Vec::new();
    let mut i: usize = 0;
    while i < items.len()
        invariant
            i <= items.len(),
            results_view(out@) == api_batch(items_view(items@).take(i as int)),
            skipped@ == api_skips(items_view(items@).take(i as int)),
        decreases items.len() - i,
    {
        let ghost before = out@;
        let ghost pre = items_view(items@).take(i as int);
        let ghost post = items_view(items@).take(i + 1);
        assert(post.drop_last() =~= pre);
        assert(post.last() == items@[i as int]@);
        match &items[i].film {
            Some(film) => match film_to_article(film) {
                Ok(res) => {
                    out.push(res);
                    assert(results_view(out@) =~= results_view(before).push(res@));
                },
                Err(LookupError::MissingField(f)) => skipped.push(f),
                Err(_) => {},
            },
            None => {},
        }
        i = i + 1;
    }
    assert(items_view(items@).take(items.len() as int) =~= items_view(items@));
    (out, skipped)
}

/// An API batch splits at any point into the batches of its two parts.
pub proof fn lemma_api_batch_concat(a: Seq<Option<ApiFilmView>>, b: Seq<Option<ApiFilmView>>)
    ensures
        api_batch(a + b) == api_batch(a) + api_batch(b),
    decreases b.len(),
{
    if b.len() == 0 {
        assert(a + b =~= a);
        assert(api_batch(a) + api_batch(b) =~= api_batch(a));
    } else {
        assert((a + b).drop_last() =~= a + b.drop_last());
        assert((a + b).last() == b.last());
        lemma_api_batch_concat(a, b.drop_last());
        match item_result(b.last()) {
            Some(r) => {
                assert(api_batch(a) + api_batch(b.drop_last()).push(r)
                    =~= (api_batch(a) + api_batch(b.drop_last())).push(r));
            },
            None => {},
        }
    }
}

/// An API item without a film, or whose film lacks a required field, is left
/// out, and only it: the batch equals the batch of the other items.
pub proof fn lemma_api_record_dropped(items: Seq<Option<ApiFilmView>>, i: int)
    requires
        0 <= i < items.len(),
        item_result(items[i]) is None,
    ensures
        api_batch(items) == api_batch(items.remove(i)),
{
    let a = items.take(i);
    let b = items.skip(i + 1);
    let one = seq![items[i]];
    assert(items =~= a + one + b);
    assert(items.remove(i) =~= a + b);
    lemma_api_batch_concat(a + one, b);
    lemma_api_batch_concat(a, one);
    lemma_api_batch_concat(a, b);
    assert(one.drop_last() =~= Seq::<Option<ApiFilmView>>::empty());
    assert(api_batch(one.drop_last()) =~= Seq::<SearchResultView>::empty());
    assert(one.last() == items[i]);
    assert(api_batch(one) =~= Seq::<SearchResultView>::empty());
    assert(api_batch(a) + api_batch(one) =~= api_batch(a));
}

/// Every result of a scraped batch has a non-empty target url.
pub proof fn lemma_scraped_targets_nonempty(base: Seq<char>, nodes: Seq<ResultNodeView>, k: int)
    requires
        0 <= k < scraped_batch(base, nodes).len(),
    ensures
        scraped_batch(base, nodes)[k].target_url.len() > 0,
    decreases nodes.len(),
{
    let prev = scraped_batch(base, nodes.drop_last());
    if k < prev.len() {
        lemma_scraped_targets_nonempty(base, nodes.drop_last(), k);
    }
}

/// Every result of an API batch has a non-empty target url.
pub proof fn lemma_api_targets_nonempty(items: Seq<Option<ApiFilmView>>, k: int)
    requires
        0 <= k < api_batch(items).len(),
    ensures
        api_batch(items)[k].target_url.len() > 0,
    decreases items.len(),
{
    let prev = api_batch(items.drop_last());
    if k < prev.len() {
        lemma_api_targets_nonempty(items.drop_last(), k);
    }
}

} // verus!
