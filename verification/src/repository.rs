//! Repositories, and how a listing is read from a JSON document.

use vstd::prelude::*;
use crate::json::{item_models, Json, JsonModel};
use crate::timestamp::{timestamp_from_str, timestamp_of, Timestamp};

verus! {

/// A repository as the listing endpoint describes it.
#[derive(Debug, PartialEq, Eq)]
pub struct Repository {
    /// The short name, unique among the owner's repositories.
    pub name: String,
    /// The qualified name, `owner/name`.
    pub full_name: String,
    /// When the repository was last pushed to.
    pub pushed_at: Timestamp,
    /// Whether the repository is archived.
    pub archived: bool,
}

/// The mathematical value of a [`Repository`].
pub struct RepositoryModel {
    pub name: Seq<char>,
    pub full_name: Seq<char>,
    pub pushed_at: Timestamp,
    pub archived: bool,
}

impl View for Repository {
    type V = RepositoryModel;

    open spec fn view(&self) -> RepositoryModel {
        RepositoryModel {
            name: self.name@,
            full_name: self.full_name@,
            pushed_at: self.pushed_at,
            archived: self.archived,
        }
    }
}

impl Clone for Repository {
    fn clone(&self) -> (copy: Self)
        ensures
            copy == *self,
    {
        Repository {
            name: self.name.clone(),
            full_name: self.full_name.clone(),
            pushed_at: self.pushed_at,
            archived: self.archived,
        }
    }
}

/// The values of a sequence of repositories.
pub open spec fn models(repositories: Seq<Repository>) -> Seq<RepositoryModel> {
    repositories.map_values(|r: Repository| r@)
}

/// The repository that a listing record describes, given the instant that its
/// `pushed_at` text denotes. A record describes a repository when it is an
/// object with strings `name` and `full_name`, a boolean `archived`, and a
/// `pushed_at` that denotes an instant.
pub open spec fn repository_with(record: JsonModel, pushed_at: Option<Timestamp>) -> Option<
    RepositoryModel,
> {
    match (
        record.text_field("name"@),
        record.text_field("full_name"@),
        pushed_at,
        record.flag_field("archived"@),
    ) {
        (Some(name), Some(full_name), Some(pushed_at), Some(archived)) => Some(
            RepositoryModel { name, full_name, pushed_at, archived },
        ),
        _ => None,
    }
}

/// The instant that the `pushed_at` member of a listing record denotes.
pub open spec fn pushed_at_of(record: JsonModel) -> Option<Timestamp> {
    match record.text_field("pushed_at"@) {
        Some(text) => timestamp_of(text),
        None => None,
    }
}

/// The repository that a listing record describes.
pub open spec fn repository_of(record: JsonModel) -> Option<RepositoryModel> {
    repository_with(record, pushed_at_of(record))
}

/// The repositories that a listing document describes: the document is an
/// array, and every element of it describes a repository.
pub open spec fn listing_of(document: JsonModel) -> Option<Seq<RepositoryModel>> {
    match document {
        JsonModel::Array(records) => if forall|i: int|
            0 <= i < records.len() ==> (#[trigger] repository_of(records[i])) is Some {
            Some(Seq::new(records.len(), |i: int| repository_of(records[i])->Some_0))
        } else {
            None
        },
        _ => None,
    }
}

/// The repositories of a listing that are not archived, in their order.
pub open spec fn active(all: Seq<RepositoryModel>) -> Seq<RepositoryModel> {
    all.filter(|r: RepositoryModel| !r.archived)
}

/// The repositories of a listing that are archived, in their order.
pub open spec fn archived(all: Seq<RepositoryModel>) -> Seq<RepositoryModel> {
    all.filter(|r: RepositoryModel| r.archived)
}

impl Repository {
    /// Reads a repository from a listing record, given the instant that the
    /// record's `pushed_at` text denotes.
    pub fn from_record(record: &Json, pushed_at: Option<Timestamp>) -> (read: Option<Repository>)
        ensures
            match read {
                Some(repository) => repository_with(record@, pushed_at) == Some(repository@),
                None => repository_with(record@, pushed_at) is None,
            },
    {
        let name = match record.text_at("name") {
            Some(text) => text,
            None => { return None; },
        };
        let full_name = match record.text_at("full_name") {
            Some(text) => text,
            None => { return None; },
        };
        let pushed_at = match pushed_at {
            Some(stamp) => stamp,
            None => { return None; },
        };
        let archived = match record.flag_at("archived") {
            Some(flag) => flag,
            None => { return None; },
        };
        Some(Repository { name: name.clone(), full_name: full_name.clone(), pushed_at, archived })
    }

    /// Reads a repository from a listing record.
    pub fn from_json(record: &Json) -> (read: Option<Repository>)
        ensures
            match read {
                Some(repository) => repository_of(record@) == Some(repository@),
                None => repository_of(record@) is None,
            },
    {
        let pushed_at = match record.text_at("pushed_at") {
            Some(text) => timestamp_from_str(text.as_str()),
            None => None,
        };
        Repository::from_record(record, pushed_at)
    }
}

/// Reads every repository of a listing document. One record that does not
/// describe a repository fails the whole listing.
pub fn repositories_from_document(document: &Json) -> (read: Option<Vec<Repository>>)
    ensures
        match read {
            Some(all) => listing_of(document@) == Some(models(all@)),
            None => listing_of(document@) is None,
        },
{
    let records = match document.as_items() {
        Some(records) => records,
        None => { return None; },
    };
    let ghost items = item_models(records@);
    let mut all: Vec<Repository> = Vec::new();
    let mut i: usize = 0;
    while i < records.len()
        invariant
            i <= records.len(),
            document@ == JsonModel::Array(items),
            items == item_models(records@),
            all.len() == i,
            forall|j: int|
                0 <= j < i ==> (#[trigger] repository_of(items[j])) == Some(all[j]@),
        decreases records.len() - i,
    {
        match Repository::from_json(&records[i]) {
            Some(repository) => {
                all.push(repository);
            },
            None => {
                assert(repository_of(items[i as int]) is None);
                return None;
            },
        }
        i += 1;
    }
    assert(listing_of(document@)->Some_0 =~= models(all@));
    Some(all)
}

/// Keeps the repositories that are not archived, in their order.
pub fn active_only(all: &Vec<Repository>) -> (kept: Vec<Repository>)
    ensures
        models(kept@) == active(models(all@)),
        kept.len() == all.len() - archived(models(all@)).len(),
        forall|i: int| 0 <= i < kept.len() ==> !(#[trigger] kept[i]).archived,
{
    let mut kept: Vec<Repository> = Vec::new();
    let mut i: usize = 0;
    while i < all.len()
        invariant
            i <= all.len(),
            models(kept@) == active(models(all@.take(i as int))),
        decreases all.len() - i,
    {
        proof {
            lemma_active_step(models(all@), i as int);
            assert(models(all@.take(i as int)) =~= models(all@).take(i as int));
            assert(models(all@.take(i + 1)) =~= models(all@).take(i + 1));
        }
        if !all[i].archived {
            let ghost before = kept@;
            kept.push(all[i].clone());
            assert(models(kept@) =~= models(before).push(all[i as int]@));
        }
        i += 1;
    }
    proof {
        assert(all@.take(all.len() as int) =~= all@);
        lemma_active_count(models(all@));
        lemma_active_all_unarchived(models(all@));
        assert forall|i: int| 0 <= i < kept.len() implies !(#[trigger] kept[i]).archived by {
            assert(models(kept@)[i] == kept[i]@);
        }
    }
    kept
}

/// Extending a listing by one repository extends its active part by that
/// repository if it is not archived, and leaves it unchanged otherwise.
pub proof fn lemma_active_step(all: Seq<RepositoryModel>, i: int)
    requires
        0 <= i < all.len(),
    ensures
        active(all.take(i + 1)) == if all[i].archived {
            active(all.take(i))
        } else {
            active(all.take(i)).push(all[i])
        },
{
    reveal(Seq::filter);
    assert(all.take(i + 1).drop_last() =~= all.take(i));
}

/// Of a listing of N repositories of which M are archived, N - M are active.
pub proof fn lemma_active_count(all: Seq<RepositoryModel>)
    ensures
        active(all).len() + archived(all).len() == all.len(),
    decreases all.len(),
{
    reveal(Seq::filter);
    if all.len() > 0 {
        lemma_active_count(all.drop_last());
    }
}

/// No active repository is archived.
pub proof fn lemma_active_all_unarchived(all: Seq<RepositoryModel>)
    ensures
        forall|i: int| 0 <= i < active(all).len() ==> !(#[trigger] active(all)[i]).archived,
{
    assert forall|i: int| 0 <= i < active(all).len() implies !(#[trigger] active(all)[i]).archived by {
        all.lemma_filter_pred(|r: RepositoryModel| !r.archived, i);
    }
}

} // verus!
