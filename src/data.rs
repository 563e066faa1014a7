use vstd::prelude::*;
use vstd::string::StringExecFns;
use crate::color::Rgb;
use crate::thumbnail::Thumbnail;

verus! {

#[verifier::external_type_specification]
#[verifier::external_body]
pub struct ExTomlValue(toml::Value);

/// A TOML value as plain data: the kinds that the data set reads, and
/// `Other` for the rest (floats, booleans, datetimes). A parsed table holds
/// its entries sorted by key, as `toml::Table` keeps them.
#[derive(Debug)]
pub enum TomlItem {
    Str(String),
    Int(i64),
    Array(Vec<TomlItem>),
    Table(Vec<(String, TomlItem)>),
    Other,
}

/// Whether `toml::from_str` accepts `text` as a TOML document.
pub uninterp spec fn toml_accepts(text: Seq<char>) -> bool;

/// The root table that `toml::from_str` reads from `text`, when it accepts it.
pub uninterp spec fn toml_tree(text: Seq<char>) -> TomlItem;

/// Relies on the variants of toml::Value: strings, integers, arrays and
/// tables are carried over one for one, every other kind becomes `Other`.
#[verifier::external_body]
fn item_of(v: &toml::Value) -> TomlItem {
    match v {
        toml::Value::String(s) => TomlItem::Str(s.clone()),
        toml::Value::Integer(n) => TomlItem::Int(*n),
        toml::Value::Array(a) => TomlItem::Array(a.iter().map(item_of).collect()),
        toml::Value::Table(t) => TomlItem::Table(t.iter().map(|(k, x)| (k.clone(), item_of(x))).collect()),
        _ => TomlItem::Other,
    }
}

/// Relies on toml::from_str: reads `text` into its root table, or fails when
/// `toml::from_str` rejects it; the result depends on the text alone.
#[verifier::external_body]
fn parse_document(text: &str) -> (r: Option<TomlItem>)
    ensures
        r is Some == toml_accepts(text@),
        r is Some ==> r->Some_0 == toml_tree(text@),
{
    let table = toml::from_str::<toml::Table>(text).ok()?;
    Some(TomlItem::Table(table.iter().map(|(k, x)| (k.clone(), item_of(x))).collect()))
}

/// The data set that ships with the site.
pub const RAW_DATA: &'static str = r#"
[[skills]]
name = "Rust"
rgb = [222, 165, 132]
text_rgb = [24, 24, 24]

[[skills]]
name = "WebAssembly"
rgb = [101, 79, 240]
text_rgb = [255, 255, 255]

[[skills]]
name = "TypeScript"
rgb = [49, 120, 198]
text_rgb = [255, 255, 255]

[[skills]]
name = "Python"
rgb = [255, 212, 59]
text_rgb = [36, 36, 36]

[[skills]]
name = "Linux"
rgb = [252, 198, 36]
text_rgb = [0, 0, 0]

[[project_highlights]]
slug = "portfolio"
title = "Portfolio"
description = "This site: an immediate-mode interface compiled to run in the browser."
tags = ["Rust", "WebAssembly"]
external_link = "https://github.com/emilk/eframe_template"
highlight_imgs = ["/assets/portfolio_wide.png"]
thumbnail_path = "/assets/portfolio_thumb.png"

[[project_highlights]]
slug = "plotter"
title = "Plotter"
description = "A small tool that turns measurement logs into interactive charts."
tags = ["Python", "TypeScript"]
external_link = "https://github.com/emilk/egui"
highlight_imgs = ["/assets/plotter_chart.png", "/assets/plotter_table.png"]
thumbnail_path = "/assets/plotter_thumb.png"
"#;

/// Why the bundled data set could not be loaded.
#[derive(Clone, Copy, Debug, PartialEq, Eq, Structural)]
pub enum DataError {
    /// The text is not well-formed TOML.
    Syntax,
    /// A required field is absent.
    MissingField,
    /// A field holds a value of the wrong kind.
    WrongType,
    /// A colour is not a triple of integers from 0 to 255.
    BadColor,
}

/// A named, coloured badge for a technology.
#[derive(Debug)]
pub struct Skill {
    pub name: String,
    pub rgb: [u8; 3],
    pub text_rgb: [u8; 3],
}

/// A showcased project.
#[derive(Debug)]
pub struct Project {
    pub slug: String,
    pub title: String,
    pub description: String,
    pub tags: Vec<String>,
    pub external_link: String,
    pub highlight_imgs: Vec<String>,
    pub thumbnail_path: String,
    pub thumbnail: Thumbnail,
}

/// Every skill and every project highlight of the site.
#[derive(Debug)]
pub struct Data {
    pub skills: Vec<Skill>,
    pub project_highlights: Vec<Project>,
}

/// The channel that an integer denotes, if it lies in `0..=255`.
pub open spec fn channel_of(n: i64) -> Option<u8> {
    if 0 <= n <= 255 {
        Some(n as u8)
    } else {
        None
    }
}

/// Reads one colour channel.
pub fn channel(n: i64) -> (r: Option<u8>)
    ensures
        r == channel_of(n),
{
    if 0 <= n && n <= 255 {
        Some(n as u8)
    } else {
        None
    }
}

/// The integers read from an array form a colour: exactly three of them,
/// each a channel from 0 to 255.
pub open spec fn is_color(items: Seq<Option<i64>>) -> bool {
    &&& items.len() == 3
    &&& forall|i: int| 0 <= i < 3 ==> (#[trigger] items[i]) is Some && channel_of(items[i]->0) is Some
}

/// Reads a colour triple from the integers of an array (`None` standing for
/// an element that is not an integer).
pub fn color_triple(items: &Vec<Option<i64>>) -> (r: Result<[u8; 3], DataError>)
    ensures
        r is Ok <==> is_color(items@),
        r is Ok ==> forall|i: int| 0 <= i < 3 ==> (#[trigger] r->Ok_0@[i]) as i64 == items@[i]->0,
        r is Err ==> r->Err_0 == DataError::BadColor,
{
    if items.len() != 3 {
        return Err(DataError::BadColor);
    }
    let mut out: [u8; 3] = [0, 0, 0];
    let mut i: usize = 0;
    while i < 3
        invariant
            i <= 3,
            items@.len() == 3,
            forall|j: int| 0 <= j < i ==> (#[trigger] items@[j]) is Some && channel_of(items@[j]->0) is Some,
            forall|j: int| 0 <= j < i ==> (#[trigger] out@[j]) as i64 == items@[j]->0,
        decreases 3 - i,
    {
        match items[i] {
            Some(n) => match channel(n) {
                Some(c) => {
                    out[i] = c;
                },
                None => {
                    return Err(DataError::BadColor);
                },
            },
            None => {
                return Err(DataError::BadColor);
            },
        }
        i = i + 1;
    }
    Ok(out)
}

/// The value stored under `key` among `entries`, from position `i` on.
pub open spec fn field_from(entries: Seq<(String, TomlItem)>, key: Seq<char>, i: int) -> Option<TomlItem>
    decreases entries.len() - i,
{
    if i < 0 || i >= entries.len() {
        None
    } else if entries[i].0@ == key {
        Some(entries[i].1)
    } else {
        field_from(entries, key, i + 1)
    }
}

/// The value stored under `key` in a table's entries.
pub open spec fn field(entries: Seq<(String, TomlItem)>, key: Seq<char>) -> Option<TomlItem> {
    field_from(entries, key, 0)
}

/// What is wrong with a required string field, if anything.
pub open spec fn text_error(x: Option<TomlItem>) -> Option<DataError> {
    match x {
        None => Some(DataError::MissingField),
        Some(TomlItem::Str(_)) => None,
        Some(_) => Some(DataError::WrongType),
    }
}

/// `s` is the text of a string field.
pub open spec fn text_is(s: Seq<char>, x: Option<TomlItem>) -> bool {
    match x {
        Some(TomlItem::Str(t)) => s == t@,
        _ => false,
    }
}

/// Every element of `v` is a string.
pub open spec fn all_text(v: Seq<TomlItem>) -> bool {
    forall|i: int| 0 <= i < v.len() ==> (#[trigger] v[i]) is Str
}

/// The first `n` elements of `v` are the strings of `l`.
pub open spec fn texts_are(l: Seq<String>, v: Seq<TomlItem>, n: int) -> bool {
    forall|i: int| 0 <= i < n ==> #[trigger] v[i] == TomlItem::Str(l[i])
}

proof fn texts_push(l: Seq<String>, v: Seq<TomlItem>, n: int, s: String)
    requires
        texts_are(l, v, n),
        l.len() == n,
        0 <= n < v.len(),
        v[n] == TomlItem::Str(s),
    ensures
        texts_are(l.push(s), v, n + 1),
{
    let l2 = l.push(s);
    assert forall|j: int| 0 <= j < n + 1 implies #[trigger] v[j] == TomlItem::Str(l2[j]) by {
        if j < n {
            assert(l2[j] == l[j]);
        }
    }
}

/// What is wrong with a required field holding an array of strings.
pub open spec fn list_error(x: Option<TomlItem>) -> Option<DataError> {
    match x {
        None => Some(DataError::MissingField),
        Some(TomlItem::Array(v)) => if all_text(v@) {
            None
        } else {
            Some(DataError::WrongType)
        },
        Some(_) => Some(DataError::WrongType),
    }
}

/// `l` holds the texts of an array of strings, in order.
pub open spec fn list_is(l: Seq<String>, x: Option<TomlItem>) -> bool {
    match x {
        Some(TomlItem::Array(v)) => {
            &&& l.len() == v@.len()
            &&& texts_are(l, v@, l.len() as int)
        },
        _ => false,
    }
}

/// The integers of an array, `None` standing for an element of another kind.
pub open spec fn ints_of(v: Seq<TomlItem>) -> Seq<Option<i64>> {
    Seq::new(v.len(), |i: int| match v[i] {
        TomlItem::Int(n) => Some(n),
        _ => None,
    })
}

/// What is wrong with a required colour field.
pub open spec fn color_error(x: Option<TomlItem>) -> Option<DataError> {
    match x {
        None => Some(DataError::MissingField),
        Some(TomlItem::Array(v)) => if is_color(ints_of(v@)) {
            None
        } else {
            Some(DataError::BadColor)
        },
        Some(_) => Some(DataError::WrongType),
    }
}

/// `rgb` holds the three channels of a colour field.
pub open spec fn color_is(rgb: [u8; 3], x: Option<TomlItem>) -> bool {
    match x {
        Some(TomlItem::Array(v)) => forall|i: int| 0 <= i < 3 ==> (#[trigger] rgb@[i]) as i64 == ints_of(v@)[i]->0,
        _ => false,
    }
}

/// The first problem of a skill's table, in the order name, rgb, text_rgb.
pub open spec fn skill_error(item: TomlItem) -> Option<DataError> {
    match item {
        TomlItem::Table(e) => if text_error(field(e@, "name"@)) is Some {
            text_error(field(e@, "name"@))
        } else if color_error(field(e@, "rgb"@)) is Some {
            color_error(field(e@, "rgb"@))
        } else {
            color_error(field(e@, "text_rgb"@))
        },
        _ => Some(DataError::WrongType),
    }
}

/// `s` holds the fields of a skill's table.
pub open spec fn skill_matches(s: Skill, item: TomlItem) -> bool {
    match item {
        TomlItem::Table(e) => {
            &&& text_is(s.name@, field(e@, "name"@))
            &&& color_is(s.rgb, field(e@, "rgb"@))
            &&& color_is(s.text_rgb, field(e@, "text_rgb"@))
        },
        _ => false,
    }
}

/// The first problem of a project's table, in the order slug, title,
/// description, tags, external_link, highlight_imgs, thumbnail_path.
pub open spec fn project_error(item: TomlItem) -> Option<DataError> {
    match item {
        TomlItem::Table(e) => if text_error(field(e@, "slug"@)) is Some {
            text_error(field(e@, "slug"@))
        } else if text_error(field(e@, "title"@)) is Some {
            text_error(field(e@, "title"@))
        } else if text_error(field(e@, "description"@)) is Some {
            text_error(field(e@, "description"@))
        } else if list_error(field(e@, "tags"@)) is Some {
            list_error(field(e@, "tags"@))
        } else if text_error(field(e@, "external_link"@)) is Some {
            text_error(field(e@, "external_link"@))
        } else if list_error(field(e@, "highlight_imgs"@)) is Some {
            list_error(field(e@, "highlight_imgs"@))
        } else {
            text_error(field(e@, "thumbnail_path"@))
        },
        _ => Some(DataError::WrongType),
    }
}

/// `p` holds the fields of a project's table, its thumbnail not yet requested.
pub open spec fn project_matches(p: Project, item: TomlItem) -> bool {
    match item {
        TomlItem::Table(e) => {
            &&& text_is(p.slug@, field(e@, "slug"@))
            &&& text_is(p.title@, field(e@, "title"@))
            &&& text_is(p.description@, field(e@, "description"@))
            &&& list_is(p.tags@, field(e@, "tags"@))
            &&& text_is(p.external_link@, field(e@, "external_link"@))
            &&& list_is(p.highlight_imgs@, field(e@, "highlight_imgs"@))
            &&& text_is(p.thumbnail_path@, field(e@, "thumbnail_path"@))
            &&& p.thumbnail == Thumbnail::NotRequested
        },
        _ => false,
    }
}

/// The first problem among the skill tables from position `i` on.
pub open spec fn skills_error_from(v: Seq<TomlItem>, i: int) -> Option<DataError>
    decreases v.len() - i,
{
    if i < 0 || i >= v.len() {
        None
    } else if skill_error(v[i]) is Some {
        skill_error(v[i])
    } else {
        skills_error_from(v, i + 1)
    }
}

/// The first problem among the project tables from position `i` on.
pub open spec fn projects_error_from(v: Seq<TomlItem>, i: int) -> Option<DataError>
    decreases v.len() - i,
{
    if i < 0 || i >= v.len() {
        None
    } else if project_error(v[i]) is Some {
        project_error(v[i])
    } else {
        projects_error_from(v, i + 1)
    }
}

/// What is wrong with the `skills` array, if anything.
pub open spec fn skills_array_error(x: Option<TomlItem>) -> Option<DataError> {
    match x {
        None => Some(DataError::MissingField),
        Some(TomlItem::Array(v)) => skills_error_from(v@, 0),
        Some(_) => Some(DataError::WrongType),
    }
}

/// What is wrong with the `project_highlights` array, if anything.
pub open spec fn projects_array_error(x: Option<TomlItem>) -> Option<DataError> {
    match x {
        None => Some(DataError::MissingField),
        Some(TomlItem::Array(v)) => projects_error_from(v@, 0),
        Some(_) => Some(DataError::WrongType),
    }
}

/// The first problem of a document read as a data set: the `skills` array
/// and its tables, then the `project_highlights` array and its tables.
pub open spec fn data_error(doc: TomlItem) -> Option<DataError> {
    match doc {
        TomlItem::Table(e) => if skills_array_error(field(e@, "skills"@)) is Some {
            skills_array_error(field(e@, "skills"@))
        } else {
            projects_array_error(field(e@, "project_highlights"@))
        },
        _ => Some(DataError::WrongType),
    }
}

/// `d` holds every skill and every project of the document, in order.
pub open spec fn data_matches(d: Data, doc: TomlItem) -> bool {
    match doc {
        TomlItem::Table(e) => match (field(e@, "skills"@), field(e@, "project_highlights"@)) {
            (Some(TomlItem::Array(s)), Some(TomlItem::Array(p))) => {
                &&& d.skills@.len() == s@.len()
                &&& forall|i: int| 0 <= i < s@.len() ==> skill_matches(#[trigger] d.skills@[i], s@[i])
                &&& d.project_highlights@.len() == p@.len()
                &&& forall|i: int| 0 <= i < p@.len() ==> project_matches(#[trigger] d.project_highlights@[i], p@[i])
            },
            _ => false,
        },
        _ => false,
    }
}

/// Reading `doc` gave `r`: the data set when the document has no problem,
/// else its first problem.
pub open spec fn matches_data(r: Result<Data, DataError>, doc: TomlItem) -> bool {
    match r {
        Ok(d) => data_error(doc) is None && data_matches(d, doc),
        Err(e) => data_error(doc) == Some(e),
    }
}

/// The value stored under `key` among a table's entries.
pub fn lookup<'a>(entries: &'a Vec<(String, TomlItem)>, key: &str) -> (r: Option<&'a TomlItem>)
    ensures
        match r {
            Some(x) => field(entries@, key@) == Some(*x),
            None => field(entries@, key@) is None,
        },
{
    let k = String::from_str(key);
    let mut i: usize = 0;
    while i < entries.len()
        invariant
            i <= entries@.len(),
            k@ == key@,
            field_from(entries@, key@, 0) == field_from(entries@, key@, i as int),
        decreases entries@.len() - i,
    {
        if entries[i].0 == k {
            return Some(&entries[i].1);
        }
        i = i + 1;
    }
    None
}

/// Reads a required string field.
fn text_field(entries: &Vec<(String, TomlItem)>, key: &str) -> (r: Result<String, DataError>)
    ensures
        match r {
            Ok(s) => text_error(field(entries@, key@)) is None && text_is(s@, field(entries@, key@)),
            Err(e) => text_error(field(entries@, key@)) == Some(e),
        },
{
    match lookup(entries, key) {
        None => Err(DataError::MissingField),
        Some(TomlItem::Str(s)) => Ok(s.clone()),
        Some(_) => Err(DataError::WrongType),
    }
}

/// Reads a required field that holds an array of strings.
fn text_list_field(entries: &Vec<(String, TomlItem)>, key: &str) -> (r: Result<Vec<String>, DataError>)
    ensures
        match r {
            Ok(l) => list_error(field(entries@, key@)) is None && list_is(l@, field(entries@, key@)),
            Err(e) => list_error(field(entries@, key@)) == Some(e),
        },
{
    let items = match lookup(entries, key) {
        None => {
            return Err(DataError::MissingField);
        },
        Some(TomlItem::Array(v)) => v,
        Some(_) => {
            return Err(DataError::WrongType);
        },
    };
    let mut out: Vec<String> = Vec::new();
    let mut i: usize = 0;
    while i < items.len()
        invariant
            i <= items@.len(),
            field(entries@, key@) == Some(TomlItem::Array(*items)),
            out@.len() == i,
            texts_are(out@, items@, i as int),
        decreases items@.len() - i,
    {
        let item = &items[i];
        assert(*item == items@[i as int]);
        match item {
            TomlItem::Str(s) => {
                let ghost before = out@;
                out.push(s.clone());
                proof {
                    texts_push(before, items@, i as int, *s);
                }
            },
            _ => {
                assert(!all_text(items@));
                return Err(DataError::WrongType);
            },
        }
        i = i + 1;
    }
    assert(all_text(items@)) by {
        assert forall|j: int| 0 <= j < items@.len() implies (#[trigger] items@[j]) is Str by {
            assert(items@[j] == TomlItem::Str(out@[j]));
        }
    }
    Ok(out)
}

/// Reads a required colour field.
fn color_field(entries: &Vec<(String, TomlItem)>, key: &str) -> (r: Result<[u8; 3], DataError>)
    ensures
        match r {
            Ok(c) => color_error(field(entries@, key@)) is None && color_is(c, field(entries@, key@)),
            Err(e) => color_error(field(entries@, key@)) == Some(e),
        },
{
    let items = match lookup(entries, key) {
        None => {
            return Err(DataError::MissingField);
        },
        Some(TomlItem::Array(v)) => v,
        Some(_) => {
            return Err(DataError::WrongType);
        },
    };
    let mut numbers: Vec<Option<i64>> = Vec::new();
    let mut i: usize = 0;
    while i < items.len()
        invariant
            i <= items@.len(),
            numbers@.len() == i,
            forall|j: int| 0 <= j < i ==> #[trigger] numbers@[j] == ints_of(items@)[j],
        decreases items@.len() - i,
    {
        let n = match &items[i] {
            TomlItem::Int(n) => Some(*n),
            _ => None,
        };
        numbers.push(n);
        i = i + 1;
    }
    assert(numbers@ =~= ints_of(items@));
    color_triple(&numbers)
}

impl Skill {
    /// Reads a skill from its table.
    pub fn from_item(item: &TomlItem) -> (r: Result<Skill, DataError>)
        ensures
            match r {
                Ok(s) => skill_error(*item) is None && skill_matches(s, *item),
                Err(e) => skill_error(*item) == Some(e),
            },
    {
        let entries = match item {
            TomlItem::Table(e) => e,
            _ => {
                return Err(DataError::WrongType);
            },
        };
        let name = text_field(entries, "name")?;
        let rgb = color_field(entries, "rgb")?;
        let text_rgb = color_field(entries, "text_rgb")?;
        Ok(Skill { name, rgb, text_rgb })
    }

    /// The badge's background colour.
    pub fn color(&self) -> (c: Rgb)
        ensures
            c == (Rgb { r: self.rgb@[0], g: self.rgb@[1], b: self.rgb@[2] }),
    {
        Rgb::from_array(self.rgb)
    }

    /// The colour of the badge's label.
    pub fn text_color(&self) -> (c: Rgb)
        ensures
            c == (Rgb { r: self.text_rgb@[0], g: self.text_rgb@[1], b: self.text_rgb@[2] }),
    {
        Rgb::from_array(self.text_rgb)
    }
}

impl Project {
    /// Reads a project highlight from its table; its thumbnail is not
    /// requested yet.
    pub fn from_item(item: &TomlItem) -> (r: Result<Project, DataError>)
        ensures
            match r {
                Ok(p) => project_error(*item) is None && project_matches(p, *item),
                Err(e) => project_error(*item) == Some(e),
            },
    {
        let entries = match item {
            TomlItem::Table(e) => e,
            _ => {
                return Err(DataError::WrongType);
            },
        };
        let slug = text_field(entries, "slug")?;
        let title = text_field(entries, "title")?;
        let description = text_field(entries, "description")?;
        let tags = text_list_field(entries, "tags")?;
        let external_link = text_field(entries, "external_link")?;
        let highlight_imgs = text_list_field(entries, "highlight_imgs")?;
        let thumbnail_path = text_field(entries, "thumbnail_path")?;
        Ok(Project {
            slug,
            title,
            description,
            tags,
            external_link,
            highlight_imgs,
            thumbnail_path,
            thumbnail: Thumbnail::new(),
        })
    }

    /// The address to load the thumbnail from: `base_url` followed by the
    /// thumbnail's path.
    pub fn thumbnail_uri(&self, base_url: &str) -> (r: String)
        ensures
            r@ == base_url@ + self.thumbnail_path@,
    {
        String::from_str(base_url).concat(self.thumbnail_path.as_str())
    }
}

impl Data {
    /// Reads a data set from a parsed document: the skill tables of its
    /// `skills` array and the project tables of its `project_highlights`
    /// array, in order. The first problem met, in that reading order, is
    /// returned instead, and no partial data set is produced.
    pub fn from_document(doc: &TomlItem) -> (r: Result<Data, DataError>)
        ensures
            matches_data(r, *doc),
    {
        let entries = match doc {
            TomlItem::Table(e) => e,
            _ => {
                return Err(DataError::WrongType);
            },
        };
        let skill_items = match lookup(entries, "skills") {
            None => {
                return Err(DataError::MissingField);
            },
            Some(TomlItem::Array(v)) => v,
            Some(_) => {
                return Err(DataError::WrongType);
            },
        };
        let mut skills: Vec<Skill> = Vec::new();
        let mut i: usize = 0;
        while i < skill_items.len()
            invariant
                i <= skill_items@.len(),
                skills@.len() == i,
                *doc == TomlItem::Table(*entries),
                field(entries@, "skills"@) == Some(TomlItem::Array(*skill_items)),
                skills_error_from(skill_items@, 0) == skills_error_from(skill_items@, i as int),
                forall|j: int| 0 <= j < i ==> skill_matches(#[trigger] skills@[j], skill_items@[j]),
            decreases skill_items@.len() - i,
        {
            let skill = match Skill::from_item(&skill_items[i]) {
                Ok(s) => s,
                Err(e) => {
                    assert(skills_error_from(skill_items@, i as int) == Some(e));
                    return Err(e);
                },
            };
            skills.push(skill);
            i = i + 1;
        }
        let project_items = match lookup(entries, "project_highlights") {
            None => {
                return Err(DataError::MissingField);
            },
            Some(TomlItem::Array(v)) => v,
            Some(_) => {
                return Err(DataError::WrongType);
            },
        };
        let mut projects: Vec<Project> = Vec::new();
        let mut j: usize = 0;
        while j < project_items.len()
            invariant
                j <= project_items@.len(),
                projects@.len() == j,
                *doc == TomlItem::Table(*entries),
                field(entries@, "skills"@) == Some(TomlItem::Array(*skill_items)),
                skills_error_from(skill_items@, 0) is None,
                skills@.len() == skill_items@.len(),
                forall|k: int| 0 <= k < skill_items@.len() ==> skill_matches(#[trigger] skills@[k], skill_items@[k]),
                field(entries@, "project_highlights"@) == Some(TomlItem::Array(*project_items)),
                projects_error_from(project_items@, 0) == projects_error_from(project_items@, j as int),
                forall|k: int| 0 <= k < j ==> project_matches(#[trigger] projects@[k], project_items@[k]),
            decreases project_items@.len() - j,
        {
            let project = match Project::from_item(&project_items[j]) {
                Ok(p) => p,
                Err(e) => {
                    assert(projects_error_from(project_items@, j as int) == Some(e));
                    return Err(e);
                },
            };
            projects.push(project);
            j = j + 1;
        }
        Ok(Data { skills, project_highlights: projects })
    }

    /// Reads a data set from TOML text: `Syntax` when `toml::from_str`
    /// rejects the text, else what `from_document` gives on its root table.
    pub fn from_toml(text: &str) -> (r: Result<Data, DataError>)
        ensures
            !toml_accepts(text@) ==> r == Err::<Data, DataError>(DataError::Syntax),
            toml_accepts(text@) ==> matches_data(r, toml_tree(text@)),
    {
        match parse_document(text) {
            None => Err(DataError::Syntax),
            Some(doc) => Data::from_document(&doc),
        }
    }

    /// Loads the data set that ships with the site.
    pub fn new() -> (r: Result<Data, DataError>)
        ensures
            !toml_accepts(RAW_DATA@) ==> r == Err::<Data, DataError>(DataError::Syntax),
            toml_accepts(RAW_DATA@) ==> matches_data(r, toml_tree(RAW_DATA@)),
    {
        Data::from_toml(RAW_DATA)
    }

    /// The skills, in the order of the data set.
    pub fn skills(&self) -> (r: &[Skill])
        ensures
            r@ == self.skills@,
    {
        self.skills.as_slice()
    }

    /// The project highlights, in the order of the data set.
    pub fn project_highlights(&self) -> (r: &[Project])
        ensures
            r@ == self.project_highlights@,
    {
        self.project_highlights.as_slice()
    }
}

proof fn skill_problem_found(v: Seq<TomlItem>, k: int, i: int)
    requires
        0 <= k <= i < v.len(),
        skill_error(v[i]) is Some,
    ensures
        skills_error_from(v, k) is Some,
    decreases i - k,
{
    if skill_error(v[k]) is None {
        skill_problem_found(v, k + 1, i);
    }
}

proof fn project_problem_found(v: Seq<TomlItem>, k: int, i: int)
    requires
        0 <= k <= i < v.len(),
        project_error(v[i]) is Some,
    ensures
        projects_error_from(v, k) is Some,
    decreases i - k,
{
    if project_error(v[k]) is None {
        project_problem_found(v, k + 1, i);
    }
}

/// A document in which one skill table has a problem (a missing field, a
/// value of the wrong kind, a bad colour) yields no data set at all.
pub proof fn skill_problem_gives_no_data(r: Result<Data, DataError>, doc: TomlItem, i: int)
    requires
        matches_data(r, doc),
        doc is Table,
        field(doc->Table_0@, "skills"@) matches Some(TomlItem::Array(v)) && 0 <= i < v@.len()
            && skill_error(v@[i]) is Some,
    ensures
        r is Err,
{
    if let Some(TomlItem::Array(v)) = field(doc->Table_0@, "skills"@) {
        skill_problem_found(v@, 0, i);
    }
}

/// A document in which one project table has a problem yields no data set
/// at all.
pub proof fn project_problem_gives_no_data(r: Result<Data, DataError>, doc: TomlItem, i: int)
    requires
        matches_data(r, doc),
        doc is Table,
        field(doc->Table_0@, "project_highlights"@) matches Some(TomlItem::Array(v)) && 0 <= i < v@.len()
            && project_error(v@[i]) is Some,
    ensures
        r is Err,
{
    if let Some(TomlItem::Array(v)) = field(doc->Table_0@, "project_highlights"@) {
        project_problem_found(v@, 0, i);
    }
}

/// Two data sets read from the same document hold the same skills, field by
/// field and in the same order.
pub proof fn loading_is_deterministic(d1: Data, d2: Data, doc: TomlItem)
    requires
        matches_data(Ok(d1), doc),
        matches_data(Ok(d2), doc),
    ensures
        d1.skills@.len() == d2.skills@.len(),
        forall|i: int|
            0 <= i < d1.skills@.len() ==> (#[trigger] d1.skills@[i]).name@ == d2.skills@[i].name@
                && d1.skills@[i].rgb@ == d2.skills@[i].rgb@ && d1.skills@[i].text_rgb@ == d2.skills@[i].text_rgb@,
{
    if let TomlItem::Table(e) = doc {
        if let Some(TomlItem::Array(v)) = field(e@, "skills"@) {
            assert forall|i: int| 0 <= i < d1.skills@.len() implies (#[trigger] d1.skills@[i]).name@ == d2.skills@[i].name@
                && d1.skills@[i].rgb@ == d2.skills@[i].rgb@ && d1.skills@[i].text_rgb@ == d2.skills@[i].text_rgb@ by {
                assert(skill_matches(d1.skills@[i], v@[i]));
                assert(skill_matches(d2.skills@[i], v@[i]));
                assert(d1.skills@[i].rgb@ =~= d2.skills@[i].rgb@);
                assert(d1.skills@[i].text_rgb@ =~= d2.skills@[i].text_rgb@);
            }
        }
    }
}

} // verus!
