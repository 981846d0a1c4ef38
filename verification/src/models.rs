//! The canonical catalog item.

use vstd::prelude::*;

verus! {

/// One catalog item in canonical form.
///
/// `link`, `image` and `categories` are always lists here, whatever shape the
/// catalog source gave them.
#[derive(Debug, PartialEq, Eq)]
pub struct GameMod {
    /// Primary key of the item in the index.
    pub id: String,
    pub title: String,
    pub link: Vec<String>,
    pub image: Option<Vec<String>>,
    /// Filterable facet.
    pub categories: Option<Vec<String>>,
    /// Secondary ranking key, larger first.
    pub downloads: i32,
    /// Filterable facet.
    pub author: Option<String>,
}

/// The mathematical content of a [`GameMod`]: texts as character sequences,
/// lists as sequences of texts.
pub struct GameModView {
    pub id: Seq<char>,
    pub title: Seq<char>,
    pub link: Seq<Seq<char>>,
    pub image: Option<Seq<Seq<char>>>,
    pub categories: Option<Seq<Seq<char>>>,
    pub downloads: int,
    pub author: Option<Seq<char>>,
}

/// The texts that a list of strings holds, in order.
pub open spec fn texts(list: Vec<String>) -> Seq<Seq<char>> {
    list@.map_values(|s: String| s@)
}

/// The texts of an optional list, `None` where the list is absent.
pub open spec fn optional_texts(list: Option<Vec<String>>) -> Option<Seq<Seq<char>>> {
    match list {
        Some(l) => Some(texts(l)),
        None => None,
    }
}

/// The text of an optional string, `None` where the string is absent.
pub open spec fn optional_text(s: Option<String>) -> Option<Seq<char>> {
    match s {
        Some(t) => Some(t@),
        None => None,
    }
}

impl View for GameMod {
    type V = GameModView;

    open spec fn view(&self) -> GameModView {
        GameModView {
            id: self.id@,
            title: self.title@,
            link: texts(self.link),
            image: optional_texts(self.image),
            categories: optional_texts(self.categories),
            downloads: self.downloads as int,
            author: optional_text(self.author),
        }
    }
}

impl GameModView {
    /// The constraints of a canonical item: a non-empty identifier, at least
    /// one link, and no list that is present but empty.
    pub open spec fn well_formed(self) -> bool {
        &&& self.id.len() > 0
        &&& self.link.len() > 0
        &&& (self.image matches Some(l) ==> l.len() > 0)
        &&& (self.categories matches Some(l) ==> l.len() > 0)
        &&& i32::MIN <= self.downloads <= i32::MAX
    }
}

impl Clone for GameMod {
    fn clone(&self) -> (r: Self)
        ensures
            r@ == self@,
    {
        GameMod {
            id: self.id.clone(),
            title: self.title.clone(),
            link: copy_texts(&self.link),
            image: match &self.image {
                Some(list) => Some(copy_texts(list)),
                None => None,
            },
            categories: match &self.categories {
                Some(list) => Some(copy_texts(list)),
                None => None,
            },
            downloads: self.downloads,
            author: match &self.author {
                Some(name) => Some(name.clone()),
                None => None,
            },
        }
    }
}

/// Copies a list of strings.
fn copy_texts(list: &Vec<String>) -> (r: Vec<String>)
    ensures
        texts(r) == texts(*list),
{
    let mut out: Vec<String> = Vec::new();
    let mut i: usize = 0;
    while i < list.len()
        invariant
            i <= list.len(),
            out@.len() == i,
            forall|k: int| 0 <= k < i ==> out@[k]@ == list@[k]@,
        decreases list.len() - i,
    {
        out.push(list[i].clone());
        i += 1;
    }
    assert(texts(out) =~= texts(*list));
    out
}

} // verus!
