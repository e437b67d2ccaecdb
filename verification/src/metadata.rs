//! Optional structured context attached to an error.
//!
//! Metadata is a bag of named optional fields. It serializes to an ordered
//! string-keyed map: absent fields are omitted entirely, never written as
//! empty values. Deserialization reads the first entry with a recognized key.

use vstd::prelude::*;
use crate::render::{map_render, pairs_view, render_map};

verus! {

/// Structured context carried by a domain error.
#[derive(Debug)]
pub struct SkyErrorMetadata {
    pub user_name: Option<String>,
}

/// The mathematical value of a metadata bag.
pub ghost struct MetadataView {
    pub user_name: Option<Seq<char>>,
}

impl View for SkyErrorMetadata {
    type V = MetadataView;

    open spec fn view(&self) -> MetadataView {
        MetadataView {
            user_name: match self.user_name {
                Option::None => Option::None,
                Option::Some(v) => Option::Some(v@),
            },
        }
    }
}

/// The value of the first entry of `m` whose key is `k`, if any.
pub open spec fn map_first_value(m: Seq<(Seq<char>, Seq<char>)>, k: Seq<char>) -> Option<
    Seq<char>,
>
    decreases m.len(),
{
    if m.len() == 0 {
        Option::None
    } else if m[0].0 == k {
        Option::Some(m[0].1)
    } else {
        map_first_value(m.skip(1), k)
    }
}

/// Looking one entry further only matters when nothing matched before.
pub proof fn lemma_first_value_push(
    m: Seq<(Seq<char>, Seq<char>)>,
    p: (Seq<char>, Seq<char>),
    k: Seq<char>,
)
    ensures
        map_first_value(m.push(p), k) == match map_first_value(m, k) {
            Option::Some(v) => Option::Some(v),
            Option::None => if p.0 == k {
                Option::Some(p.1)
            } else {
                Option::None
            },
        },
    decreases m.len(),
{
    if m.len() == 0 {
        assert(m.push(p)[0] == p);
        assert(m.push(p).skip(1) =~= Seq::<(Seq<char>, Seq<char>)>::empty());
        assert(map_first_value(Seq::<(Seq<char>, Seq<char>)>::empty(), k) is None);
    } else {
        assert(m.push(p).skip(1) =~= m.skip(1).push(p));
        lemma_first_value_push(m.skip(1), p, k);
    }
}

impl MetadataView {
    /// The serialized map: fields in key order, absent fields omitted.
    pub open spec fn to_map_spec(self) -> Seq<(Seq<char>, Seq<char>)> {
        match self.user_name {
            Option::None => Seq::empty(),
            Option::Some(v) => seq![("userName"@, v)],
        }
    }

    /// The metadata read back from a serialized map.
    pub open spec fn from_map_spec(m: Seq<(Seq<char>, Seq<char>)>) -> MetadataView {
        MetadataView { user_name: map_first_value(m, "userName"@) }
    }

    /// The deterministic rendering: the map as an ordered key/value listing.
    pub open spec fn display_seq(self) -> Seq<char> {
        map_render(self.to_map_spec())
    }
}

/// Serializing a metadata value and reading it back yields the same value.
pub proof fn lemma_metadata_map_round_trip(m: MetadataView)
    ensures
        MetadataView::from_map_spec(m.to_map_spec()) == m,
{
    match m.user_name {
        Option::None => {
            assert(map_first_value(m.to_map_spec(), "userName"@) is None);
        },
        Option::Some(v) => {
            assert(m.to_map_spec()[0] == ("userName"@, v));
            assert(map_first_value(m.to_map_spec(), "userName"@) == Option::Some(v));
        },
    }
}

impl SkyErrorMetadata {
    /// Serializes the metadata into its ordered string-keyed map.
    pub fn to_map(&self) -> (r: Vec<(String, String)>)
        ensures
            pairs_view(r@) == self@.to_map_spec(),
    {
        let mut out: Vec<(String, String)> = Vec::new();
        match &self.user_name {
            Option::None => {
                proof {
                    assert(pairs_view(out@) =~= self@.to_map_spec());
                }
            },
            Option::Some(v) => {
                out.push(("userName".to_owned(), v.clone()));
                proof {
                    assert(pairs_view(out@) =~= self@.to_map_spec());
                }
            },
        }
        out
    }

    /// Reads metadata back from a serialized map. Every map decodes: fields
    /// never present simply stay absent.
    pub fn from_map(map: Vec<(String, String)>) -> (r: Option<SkyErrorMetadata>)
        ensures
            r matches Some(md) && md@ == MetadataView::from_map_spec(pairs_view(map@)),
    {
        let ghost full = pairs_view(map@);
        let key = "userName".to_owned();
        let mut user_name: Option<String> = Option::None;
        let mut i: usize = 0;
        while i < map.len()
            invariant
                i <= map.len(),
                full == pairs_view(map@),
                full.len() == map@.len(),
                map_first_value(full.take(i as int), "userName"@) == match user_name {
                    Option::None => Option::None::<Seq<char>>,
                    Option::Some(v) => Option::Some(v@),
                },
                key@ == "userName"@,
            decreases map.len() - i,
        {
            let entry = &map[i];
            if user_name.is_none() && entry.0 == key {
                user_name = Option::Some(entry.1.clone());
            }
            proof {
                lemma_first_value_push(full.take(i as int), full[i as int], "userName"@);
                assert(full.take(i as int).push(full[i as int]) =~= full.take(i as int + 1));
                assert(full[i as int] == (map@[i as int].0@, map@[i as int].1@));
            }
            i = i + 1;
        }
        proof {
            assert(full.take(map@.len() as int) =~= full);
        }
        Some(SkyErrorMetadata { user_name })
    }

    /// Renders the metadata's map as an ordered key/value listing.
    pub fn display_string(&self) -> (r: String)
        ensures
            r@ == self@.display_seq(),
    {
        let map = self.to_map();
        render_map(&map)
    }
}

impl Clone for SkyErrorMetadata {
    /// Clones the metadata, value for value.
    fn clone(&self) -> (r: Self)
        ensures
            r == *self,
    {
        SkyErrorMetadata {
            user_name: match &self.user_name {
                Option::None => Option::None,
                Option::Some(v) => Option::Some(v.clone()),
            },
        }
    }
}

impl Default for SkyErrorMetadata {
    /// The default metadata has every field absent.
    fn default() -> (r: Self)
        ensures
            r.user_name is None,
    {
        SkyErrorMetadata { user_name: Option::None }
    }
}

} // verus!
