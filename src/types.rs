use vstd::prelude::*;

verus! {

/// One normalized suggestion handed to the reply sink.
#[derive(Debug)]
pub struct SearchResult {
    pub id: String,
    pub title: String,
    pub subtitle: String,
    pub thumbnail_url: Option<String>,
    pub target_url: String,
}

/// The mathematical value of a `SearchResult`.
pub struct SearchResultView {
    pub id: Seq<char>,
    pub title: Seq<char>,
    pub subtitle: Seq<char>,
    pub thumbnail_url: Option<Seq<char>>,
    pub target_url: Seq<char>,
}

pub open spec fn opt_view(o: Option<String>) -> Option<Seq<char>> {
    match o {
        Some(s) => Some(s@),
        None => None,
    }
}

impl View for SearchResult {
    type V = SearchResultView;

    open spec fn view(&self) -> SearchResultView {
        SearchResultView {
            id: self.id@,
            title: self.title@,
            subtitle: self.subtitle@,
            thumbnail_url: opt_view(self.thumbnail_url),
            target_url: self.target_url@,
        }
    }
}

/// The view of a list of results.
pub open spec fn results_view(v: Seq<SearchResult>) -> Seq<SearchResultView> {
    v.map_values(|r: SearchResult| r@)
}

/// A field that an upstream record needs to map to a result.
#[derive(Clone, Copy, Debug, PartialEq, Eq, Structural)]
pub enum Field {
    /// A scraped node's `data-target-link` attribute.
    TargetLink,
    /// A scraped node's `data-film-id` attribute.
    FilmId,
    /// A scraped node's `data-film-name` attribute.
    FilmName,
    /// A scraped node's `data-film-release-year` attribute.
    ReleaseYear,
    /// An API film's `id`.
    ApiId,
    /// An API film's `name`.
    ApiName,
    /// An API film's first entry of `links`.
    ApiLink,
}

/// The name under which a field stands upstream.
pub open spec fn field_name(f: Field) -> Seq<char> {
    match f {
        Field::TargetLink => "data-target-link"@,
        Field::FilmId => "data-film-id"@,
        Field::FilmName => "data-film-name"@,
        Field::ReleaseYear => "data-film-release-year"@,
        Field::ApiId => "id"@,
        Field::ApiName => "name"@,
        Field::ApiLink => "links"@,
    }
}

impl Field {
    pub fn name(&self) -> (r: &'static str)
        ensures
            r@ == field_name(*self),
    {
        match self {
            Field::TargetLink => "data-target-link",
            Field::FilmId => "data-film-id",
            Field::FilmName => "data-film-name",
            Field::ReleaseYear => "data-film-release-year",
            Field::ApiId => "id",
            Field::ApiName => "name",
            Field::ApiLink => "links",
        }
    }
}

/// Why a lookup, or the mapping of one record, did not succeed.
#[derive(Clone, Copy, Debug, PartialEq, Eq, Structural)]
pub enum LookupError {
    /// Transport failure or a non-success status.
    Network,
    /// The body is not markup or JSON of the expected shape.
    Parse,
    /// The shared secret cannot key a signature.
    Signing,
    /// One upstream record lacks this required field.
    MissingField(Field),
    /// The lookup did not finish within the time bound.
    Timeout,
}

/// The text of an error.
pub open spec fn error_text(e: LookupError) -> Seq<char> {
    match e {
        LookupError::Network => "network error"@,
        LookupError::Parse => "parse error"@,
        LookupError::Signing => "signing error"@,
        LookupError::MissingField(f) => "missing "@ + field_name(f),
        LookupError::Timeout => "timeout exceeded"@,
    }
}

impl LookupError {
    /// The error as text, e.g. `missing data-film-id`.
    pub fn message(&self) -> (r: String)
        ensures
            r@ == error_text(*self),
    {
        match self {
            LookupError::Network => "network error".to_owned(),
            LookupError::Parse => "parse error".to_owned(),
            LookupError::Signing => "signing error".to_owned(),
            LookupError::MissingField(f) => {
                let mut m = "missing ".to_owned();
                m.append(f.name());
                m
            },
            LookupError::Timeout => "timeout exceeded".to_owned(),
        }
    }
}

/// An inbound inline query.
pub struct InlineQuery {
    pub id: String,
    pub text: String,
}

/// Name/value pairs of an element's attributes, in source order.
pub type AttrsView = Seq<(Seq<char>, Seq<char>)>;

pub open spec fn attrs_view(v: Seq<(String, String)>) -> AttrsView {
    v.map_values(|p: (String, String)| (p.0@, p.1@))
}

/// A scraped result node: its own attributes, and the attributes of each
/// `img` element inside it, in document order.
pub struct ResultNode {
    pub attrs: Vec<(String, String)>,
    pub images: Vec<Vec<(String, String)>>,
}

impl ResultNode {
    pub fn new(attrs: Vec<(String, String)>, images: Vec<Vec<(String, String)>>) -> (r: ResultNode)
        ensures
            r.attrs == attrs,
            r.images == images,
    {
        ResultNode { attrs, images }
    }
}

pub struct ResultNodeView {
    pub attrs: AttrsView,
    pub images: Seq<AttrsView>,
}

impl View for ResultNode {
    type V = ResultNodeView;

    open spec fn view(&self) -> ResultNodeView {
        ResultNodeView {
            attrs: attrs_view(self.attrs@),
            images: self.images@.map_values(|a: Vec<(String, String)>| attrs_view(a@)),
        }
    }
}

/// A film record of the catalog API; fields the payload lacks are `None`
/// or empty.
pub struct ApiFilm {
    pub id: Option<String>,
    pub name: Option<String>,
    /// Urls of `poster.sizes`, in order; empty without a poster.
    pub poster_sizes: Vec<String>,
    /// Urls of `links`, in order.
    pub links: Vec<String>,
}

pub struct ApiFilmView {
    pub id: Option<Seq<char>>,
    pub name: Option<Seq<char>>,
    pub poster_sizes: Seq<Seq<char>>,
    pub links: Seq<Seq<char>>,
}

impl View for ApiFilm {
    type V = ApiFilmView;

    open spec fn view(&self) -> ApiFilmView {
        ApiFilmView {
            id: opt_view(self.id),
            name: opt_view(self.name),
            poster_sizes: self.poster_sizes@.map_values(|s: String| s@),
            links: self.links@.map_values(|s: String| s@),
        }
    }
}

/// One entry of the API's `items` list.
pub struct ApiItem {
    pub film: Option<ApiFilm>,
}

impl View for ApiItem {
    type V = Option<ApiFilmView>;

    open spec fn view(&self) -> Option<ApiFilmView> {
        match self.film {
            Some(f) => Some(f@),
            None => None,
        }
    }
}

} // verus!
