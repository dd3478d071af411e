//! Decoders from a node to a domain entity.
//!
//! A required field that is missing, is no string or is empty once its
//! quotes are stripped rejects the whole node. An optional structure that is
//! missing or has the wrong shape is left out and rejects nothing.

use vstd::prelude::*;
use crate::entities::{
    text_of, texts, texts_of, Biography, BiographyModel, Influences, InfluencesModel, Movie,
    MovieModel, Person, PersonModel, RootModel, StorableEntity,
};
use crate::text::{lemma_strip_quote_free, quote_free_ends, remove_quotes, strip_quotes};
use crate::value::{GraphValue, ListItem, Node, Properties};

verus! {

/// The string under `key`, as it stands; `None` where the key is missing
/// or holds another kind of value.
pub open spec fn optional_text(props: Properties, key: Seq<char>) -> Option<Seq<char>> {
    match props.lookup(key) {
        Some(GraphValue::String(s)) => Some(s@),
        _ => None,
    }
}

/// The string under `key` without the quotes at its ends; `None` where the
/// key is missing, holds another kind of value, or nothing is left of the
/// string.
pub open spec fn required_text(props: Properties, key: Seq<char>) -> Option<Seq<char>> {
    match optional_text(props, key) {
        Some(t) => if strip_quotes(t).len() > 0 {
            Some(strip_quotes(t))
        } else {
            None
        },
        None => None,
    }
}

/// The string forms of the items of a list.
pub open spec fn item_texts(items: Seq<ListItem>) -> Seq<Seq<char>> {
    items.map_values(|i: ListItem| i.text@)
}

/// The string forms of the items of the list under `key`; `None` where the
/// key is missing or holds no list.
pub open spec fn optional_texts(props: Properties, key: Seq<char>) -> Option<Seq<Seq<char>>> {
    match props.lookup(key) {
        Some(GraphValue::List(items)) => Some(item_texts(items@)),
        _ => None,
    }
}

/// The three required fields, if all of them are there.
pub open spec fn root_of(props: Properties) -> Option<RootModel> {
    match (
        required_text(props, "uid"@),
        required_text(props, "title"@),
        required_text(props, "permalink"@),
    ) {
        (Some(uid), Some(title), Some(permalink)) => Some(RootModel { uid, title, permalink }),
        _ => None,
    }
}

/// The biography that `props` holds: present exactly where the property
/// `biography` is a map.
pub open spec fn biography_of(props: Properties) -> Option<BiographyModel> {
    match props.lookup("biography"@) {
        Some(GraphValue::Mapping(m)) => Some(
            BiographyModel {
                full_name: optional_text(m, "full_name"@),
                birth_date: optional_text(m, "birth_date"@),
            },
        ),
        _ => None,
    }
}

/// The influences that `props` holds: present exactly where the property
/// `influences` is a map.
pub open spec fn influences_of(props: Properties) -> Option<InfluencesModel> {
    match props.lookup("influences"@) {
        Some(GraphValue::Mapping(m)) => Some(
            InfluencesModel {
                persons: optional_texts(m, "persons"@),
                work_of_arts: optional_texts(m, "work_of_arts"@),
            },
        ),
        _ => None,
    }
}

/// The person that `node` describes, if it describes one.
pub open spec fn person_of(node: Node) -> Option<PersonModel> {
    match root_of(node.properties) {
        Some(root) => Some(
            PersonModel {
                root,
                biography: biography_of(node.properties),
                influences: influences_of(node.properties),
            },
        ),
        None => None,
    }
}

/// The movie that `node` describes, if it describes one.
pub open spec fn movie_of(node: Node) -> Option<MovieModel> {
    match root_of(node.properties) {
        Some(root) => Some(MovieModel { root }),
        None => None,
    }
}

/// What an optional person stands for.
pub open spec fn person_view(p: Option<Person>) -> Option<PersonModel> {
    match p {
        Some(x) => Some(x@),
        None => None,
    }
}

/// What an optional movie stands for.
pub open spec fn movie_view(m: Option<Movie>) -> Option<MovieModel> {
    match m {
        Some(x) => Some(x@),
        None => None,
    }
}

fn read_optional_text(props: &Properties, key: &str) -> (r: Option<String>)
    ensures
        text_of(r) == optional_text(*props, key@),
{
    match props.get(key) {
        Some(GraphValue::String(s)) => Some(s.clone()),
        _ => None,
    }
}

fn read_required_text(props: &Properties, key: &str) -> (r: Option<String>)
    ensures
        text_of(r) == required_text(*props, key@),
{
    match props.get(key) {
        Some(GraphValue::String(s)) => {
            let t = remove_quotes(s.as_str());
            if t.as_str().is_empty() {
                None
            } else {
                Some(t)
            }
        },
        _ => None,
    }
}

fn read_item_texts(items: &Vec<ListItem>) -> (r: Vec<String>)
    ensures
        texts(r@) == item_texts(items@),
{
    let mut out: Vec<String> = Vec::new();
    let mut i: usize = 0;
    while i < items.len()
        invariant
            i <= items@.len(),
            out@.len() == i,
            forall|j: int| 0 <= j < i ==> (#[trigger] out@[j])@ == items@[j].text@,
        decreases items@.len() - i,
    {
        out.push(items[i].text.clone());
        i = i + 1;
    }
    assert(texts(out@) =~= item_texts(items@));
    out
}

fn read_optional_texts(props: &Properties, key: &str) -> (r: Option<Vec<String>>)
    ensures
        texts_of(r) == optional_texts(*props, key@),
{
    match props.get(key) {
        Some(GraphValue::List(items)) => Some(read_item_texts(items)),
        _ => None,
    }
}

fn read_root(props: &Properties) -> (r: Option<StorableEntity>)
    ensures
        match r {
            Some(e) => root_of(*props) == Some(e@),
            None => root_of(*props) is None,
        },
{
    let uid = read_required_text(props, "uid");
    let title = read_required_text(props, "title");
    let permalink = read_required_text(props, "permalink");
    match (uid, title, permalink) {
        (Some(uid), Some(title), Some(permalink)) => Some(StorableEntity { uid, title, permalink }),
        _ => None,
    }
}

fn read_biography(props: &Properties) -> (r: Option<Biography>)
    ensures
        match r {
            Some(b) => biography_of(*props) == Some(b@),
            None => biography_of(*props) is None,
        },
{
    match props.get("biography") {
        Some(GraphValue::Mapping(m)) => Some(
            Biography {
                full_name: read_optional_text(m, "full_name"),
                birth_date: read_optional_text(m, "birth_date"),
            },
        ),
        _ => None,
    }
}

fn read_influences(props: &Properties) -> (r: Option<Influences>)
    ensures
        match r {
            Some(i) => influences_of(*props) == Some(i@),
            None => influences_of(*props) is None,
        },
{
    match props.get("influences") {
        Some(GraphValue::Mapping(m)) => Some(
            Influences {
                persons: read_optional_texts(m, "persons"),
                work_of_arts: read_optional_texts(m, "work_of_arts"),
            },
        ),
        _ => None,
    }
}

/// Decodes a node into a person.
///
/// The result is `Some` exactly where `uid`, `title` and `permalink` are
/// strings that are not empty once their quotes are stripped. The biography
/// and the influences are filled in as far as the node has them in the
/// right shape, and never reject the node.
pub fn decode_person(node: &Node) -> (r: Option<Person>)
    ensures
        person_view(r) == person_of(*node),
        r matches Some(p) ==> p.root.wf(),
{
    match read_root(&node.properties) {
        Some(root) => {
            let biography = read_biography(&node.properties);
            let influences = read_influences(&node.properties);
            Some(Person { root, biography, influences })
        },
        None => None,
    }
}

/// Decodes a node into a movie: `Some` exactly where the three required
/// fields are there.
pub fn decode_movie(node: &Node) -> (r: Option<Movie>)
    ensures
        movie_view(r) == movie_of(*node),
        r matches Some(m) ==> m.root.wf(),
{
    match read_root(&node.properties) {
        Some(root) => Some(Movie { root }),
        None => None,
    }
}

/// The three names of the required fields.
pub open spec fn is_required_key(key: Seq<char>) -> bool {
    key == "uid"@ || key == "title"@ || key == "permalink"@
}

/// A node whose `uid`, `title` and `permalink` are strings of which
/// something is left once the quotes at their ends are stripped decodes to
/// an entity with those three texts, stripped. Where a text has no quote at
/// its ends, it is copied as it stands.
pub proof fn lemma_complete_node_decodes(node: Node, uid: String, title: String, permalink: String)
    requires
        node.properties.lookup("uid"@) == Some(GraphValue::String(uid)),
        node.properties.lookup("title"@) == Some(GraphValue::String(title)),
        node.properties.lookup("permalink"@) == Some(GraphValue::String(permalink)),
        strip_quotes(uid@).len() > 0,
        strip_quotes(title@).len() > 0,
        strip_quotes(permalink@).len() > 0,
    ensures
        person_of(node) matches Some(p) && p.root == (RootModel {
            uid: strip_quotes(uid@),
            title: strip_quotes(title@),
            permalink: strip_quotes(permalink@),
        }),
        movie_of(node) matches Some(m) && m.root == person_of(node)->0.root,
        quote_free_ends(uid@) ==> person_of(node)->0.root.uid == uid@,
        quote_free_ends(title@) ==> person_of(node)->0.root.title == title@,
        quote_free_ends(permalink@) ==> person_of(node)->0.root.permalink == permalink@,
{
    lemma_strip_quote_free_or_not(uid@);
    lemma_strip_quote_free_or_not(title@);
    lemma_strip_quote_free_or_not(permalink@);
}

proof fn lemma_strip_quote_free_or_not(s: Seq<char>)
    ensures
        quote_free_ends(s) ==> strip_quotes(s) == s,
{
    if quote_free_ends(s) {
        lemma_strip_quote_free(s);
    }
}

/// A node is decoded exactly where each of the three required fields is
/// there. So a node that lacks one of them, holds something other than a
/// string under it, or holds a string of which stripping leaves nothing, is
/// rejected, whatever else it holds.
pub proof fn lemma_incomplete_node_rejected(node: Node, key: Seq<char>)
    requires
        is_required_key(key),
        match node.properties.lookup(key) {
            Some(GraphValue::String(s)) => strip_quotes(s@).len() == 0,
            _ => true,
        },
    ensures
        person_of(node) is None,
        movie_of(node) is None,
{
}

/// The converse: a node that is rejected fails on one of the required
/// fields.
pub proof fn lemma_rejected_node_incomplete(node: Node)
    requires
        person_of(node) is None || movie_of(node) is None,
    ensures
        exists|key: Seq<char>| #[trigger]
            is_required_key(key) && required_text(node.properties, key) is None,
{
    let props = node.properties;
    if required_text(props, "uid"@) is None {
        assert(is_required_key("uid"@));
    } else if required_text(props, "title"@) is None {
        assert(is_required_key("title"@));
    } else {
        assert(required_text(props, "permalink"@) is None);
        assert(is_required_key("permalink"@));
    }
}

/// Where the property `biography` is a map that holds strings under
/// `full_name` and `birth_date`, the node holds a biography with both, each
/// equal to its source, and the person that the node decodes to has it.
pub proof fn lemma_biography_copied(
    node: Node,
    biography: Properties,
    full_name: String,
    birth_date: String,
)
    requires
        node.properties.lookup("biography"@) == Some(GraphValue::Mapping(biography)),
        biography.lookup("full_name"@) == Some(GraphValue::String(full_name)),
        biography.lookup("birth_date"@) == Some(GraphValue::String(birth_date)),
    ensures
        biography_of(node.properties) == Some(
            BiographyModel { full_name: Some(full_name@), birth_date: Some(birth_date@) },
        ),
        person_of(node) matches Some(p) ==> p.biography == biography_of(node.properties),
{
}

/// A node without the property `biography`, or with one that is no map, has
/// no biography, and is decoded or rejected as if the property were not
/// there: by its required fields alone.
pub proof fn lemma_biography_absent(node: Node)
    requires
        !(node.properties.lookup("biography"@) matches Some(GraphValue::Mapping(_))),
    ensures
        person_of(node) is Some <==> root_of(node.properties) is Some,
        person_of(node) matches Some(p) ==> p.biography is None,
{
}

/// The same holds of `influences`.
pub proof fn lemma_influences_absent(node: Node)
    requires
        !(node.properties.lookup("influences"@) matches Some(GraphValue::Mapping(_))),
    ensures
        person_of(node) is Some <==> root_of(node.properties) is Some,
        person_of(node) matches Some(p) ==> p.influences is None,
{
}

/// Decoding is a function of the node: two results of decoding one node
/// stand for the same entity, or are both `None`.
pub proof fn lemma_decode_deterministic(node: Node, first: Option<Person>, second: Option<Person>)
    requires
        person_view(first) == person_of(node),
        person_view(second) == person_of(node),
    ensures
        person_view(first) == person_view(second),
        first is Some <==> second is Some,
{
}

} // verus!
