//! Profiles as the relay sees them: a document to forward, and the two
//! attributes it reads.

use vstd::prelude::*;
use vstd::string::*;

verus! {

/// A profile from the source. The relay never looks inside `document`; it
/// forwards it as it is.
#[derive(Clone, Debug, PartialEq, Eq)]
pub struct Profile {
    /// The profile's user id, where it has one.
    pub user_id: Option<String>,
    /// Whether the profile is active, where it says so.
    pub active: Option<bool>,
    /// The whole profile as one JSON document.
    pub document: String,
}

/// A [`Profile`] as plain text.
pub struct ProfileModel {
    pub user_id: Option<Seq<char>>,
    pub active: Option<bool>,
    pub document: Seq<char>,
}

impl DeepView for Profile {
    type V = ProfileModel;

    open spec fn deep_view(&self) -> ProfileModel {
        ProfileModel {
            user_id: self.user_id.deep_view(),
            active: self.active,
            document: self.document@,
        }
    }
}

impl ProfileModel {
    /// The name a profile goes by in messages: its user id, or `unknown`.
    pub open spec fn label(self) -> Seq<char> {
        match self.user_id {
            Some(id) => id,
            None => "unknown"@,
        }
    }

    /// Whether the profile counts as active: what it says, or no.
    pub open spec fn is_active(self) -> bool {
        match self.active {
            Some(active) => active,
            None => false,
        }
    }
}

impl Profile {
    /// The name this profile goes by in messages: its user id, or `unknown`
    /// where it has none.
    pub fn label(&self) -> (name: String)
        ensures
            name@ == self.deep_view().label(),
    {
        match &self.user_id {
            Some(id) => id.clone(),
            None => String::from_str("unknown"),
        }
    }

    /// Whether this profile counts as active: what it says of itself, and no
    /// where it says nothing.
    pub fn is_active(&self) -> (active: bool)
        ensures
            active == self.deep_view().is_active(),
    {
        match self.active {
            Some(active) => active,
            None => false,
        }
    }
}

/// The documents of a page of profiles, in order.
pub open spec fn documents(page: Seq<ProfileModel>) -> Seq<Seq<char>> {
    page.map_values(|profile: ProfileModel| profile.document)
}

/// The documents one after another, with a comma between neighbours.
pub open spec fn comma_separated(docs: Seq<Seq<char>>) -> Seq<char>
    decreases docs.len(),
{
    if docs.len() == 0 {
        Seq::empty()
    } else if docs.len() == 1 {
        docs[0]
    } else {
        comma_separated(docs.drop_last()) + seq![','] + docs.last()
    }
}

/// The JSON array whose elements are the documents, in order.
pub open spec fn json_array(docs: Seq<Seq<char>>) -> Seq<char> {
    seq!['['] + comma_separated(docs) + seq![']']
}

/// One more document after the first extends the text by a comma and the
/// document.
pub proof fn comma_separated_push(docs: Seq<Seq<char>>, doc: Seq<char>)
    ensures
        comma_separated(docs.push(doc)) == if docs.len() == 0 {
            doc
        } else {
            comma_separated(docs) + seq![','] + doc
        },
{
    let longer = docs.push(doc);
    assert(longer.drop_last() =~= docs);
    assert(longer.last() == doc);
    if docs.len() == 0 {
        assert(longer[0] == doc);
    }
}

/// Encodes a page of profiles as one JSON array of their documents, in page
/// order.
pub fn encode_page(page: &Vec<Profile>) -> (text: String)
    ensures
        text@ == json_array(documents(page.deep_view())),
{
    proof {
        reveal_strlit("[");
        reveal_strlit(",");
        reveal_strlit("]");
    }
    let ghost docs = documents(page.deep_view());
    let mut text = String::from_str("[");
    let mut i: usize = 0;
    assert("["@ =~= seq!['[']);
    assert(","@ =~= seq![',']);
    assert("]"@ =~= seq![']']);
    assert(docs.take(0) =~= Seq::<Seq<char>>::empty());
    assert(text@ =~= seq!['['] + comma_separated(docs.take(0)));
    while i < page.len()
        invariant
            i <= page.len(),
            docs == documents(page.deep_view()),
            docs.len() == page.len(),
            text@ == seq!['['] + comma_separated(docs.take(i as int)),
            ","@ == seq![','],
        decreases page.len() - i,
    {
        if i > 0 {
            text.append(",");
        }
        text.append(page[i].document.as_str());
        proof {
            let before = docs.take(i as int);
            assert(docs[i as int] == page[i as int].document@);
            assert(docs.take(i + 1) =~= before.push(docs[i as int]));
            comma_separated_push(before, docs[i as int]);
            assert(text@ =~= seq!['['] + comma_separated(docs.take(i + 1)));
        }
        i += 1;
    }
    text.append("]");
    assert(docs.take(i as int) =~= docs);
    text
}

} // verus!
