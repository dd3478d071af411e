//! The domain entities and their mathematical views.

use vstd::prelude::*;

verus! {

/// The fields that every stored entity has.
#[derive(Clone, Debug, PartialEq, Eq)]
pub struct StorableEntity {
    pub uid: String,
    pub title: String,
    pub permalink: String,
}

/// Optional facts about the life of a person.
#[derive(Clone, Debug, PartialEq, Eq)]
pub struct Biography {
    pub full_name: Option<String>,
    pub birth_date: Option<String>,
}

/// Optional lists of what influenced a person.
#[derive(Clone, Debug, PartialEq, Eq)]
pub struct Influences {
    pub persons: Option<Vec<String>>,
    pub work_of_arts: Option<Vec<String>>,
}

/// A person: the stored fields, and what is known of biography and
/// influences.
#[derive(Clone, Debug, PartialEq, Eq)]
pub struct Person {
    pub root: StorableEntity,
    pub biography: Option<Biography>,
    pub influences: Option<Influences>,
}

/// A movie: the stored fields alone.
#[derive(Clone, Debug, PartialEq, Eq)]
pub struct Movie {
    pub root: StorableEntity,
}

/// What a `StorableEntity` stands for.
pub struct RootModel {
    pub uid: Seq<char>,
    pub title: Seq<char>,
    pub permalink: Seq<char>,
}

/// What a `Biography` stands for.
pub struct BiographyModel {
    pub full_name: Option<Seq<char>>,
    pub birth_date: Option<Seq<char>>,
}

/// What an `Influences` stands for.
pub struct InfluencesModel {
    pub persons: Option<Seq<Seq<char>>>,
    pub work_of_arts: Option<Seq<Seq<char>>>,
}

/// What a `Person` stands for.
pub struct PersonModel {
    pub root: RootModel,
    pub biography: Option<BiographyModel>,
    pub influences: Option<InfluencesModel>,
}

/// What a `Movie` stands for.
pub struct MovieModel {
    pub root: RootModel,
}

/// The characters of an optional string.
pub open spec fn text_of(s: Option<String>) -> Option<Seq<char>> {
    match s {
        Some(t) => Some(t@),
        None => None,
    }
}

/// The characters of each string of a list.
pub open spec fn texts(v: Seq<String>) -> Seq<Seq<char>> {
    v.map_values(|s: String| s@)
}

/// The characters of each string of an optional list.
pub open spec fn texts_of(v: Option<Vec<String>>) -> Option<Seq<Seq<char>>> {
    match v {
        Some(l) => Some(texts(l@)),
        None => None,
    }
}

impl RootModel {
    /// No field is empty.
    pub open spec fn complete(self) -> bool {
        self.uid.len() > 0 && self.title.len() > 0 && self.permalink.len() > 0
    }
}

impl View for StorableEntity {
    type V = RootModel;

    open spec fn view(&self) -> RootModel {
        RootModel { uid: self.uid@, title: self.title@, permalink: self.permalink@ }
    }
}

impl StorableEntity {
    /// The invariant of a decoded entity: no field is empty.
    pub open spec fn wf(&self) -> bool {
        self@.complete()
    }
}

impl View for Biography {
    type V = BiographyModel;

    open spec fn view(&self) -> BiographyModel {
        BiographyModel {
            full_name: text_of(self.full_name),
            birth_date: text_of(self.birth_date),
        }
    }
}

impl View for Influences {
    type V = InfluencesModel;

    open spec fn view(&self) -> InfluencesModel {
        InfluencesModel {
            persons: texts_of(self.persons),
            work_of_arts: texts_of(self.work_of_arts),
        }
    }
}

impl View for Person {
    type V = PersonModel;

    open spec fn view(&self) -> PersonModel {
        PersonModel {
            root: self.root@,
            biography: match self.biography {
                Some(b) => Some(b@),
                None => None,
            },
            influences: match self.influences {
                Some(i) => Some(i@),
                None => None,
            },
        }
    }
}

impl View for Movie {
    type V = MovieModel;

    open spec fn view(&self) -> MovieModel {
        MovieModel { root: self.root@ }
    }
}

} // verus!
