//! The weight shards that a checkpoint index names.
//!
//! A checkpoint is split over several files.  Its index is a JSON document
//! whose `weight_map` object maps each tensor name to the file that holds
//! it; the files to fetch are the distinct values of that object.

use vstd::prelude::*;
use vstd::string::*;
use crate::error::PipelineError;

verus! {

#[verifier::external_type_specification]
#[verifier::external_body]
pub struct ExJsonError(serde_json::Error);

/// Name of the index member that maps tensors to files.
pub open spec fn weight_map_key() -> Seq<char> {
    "weight_map"@
}

/// What an index document holds under one key.
pub enum IndexContent {
    /// The document has no such member, or is not an object.
    Missing,
    /// The member is not an object.
    NotAMap,
    /// The values of the member, in the order the document's object yields
    /// them; a value that is not a string is `None`.
    Entries(Vec<Option<String>>),
}

/// `IndexContent` as plain values, with one more case for a document that
/// is not JSON.
pub enum IndexReading {
    Unreadable,
    Missing,
    NotAMap,
    Entries(Seq<Option<Seq<char>>>),
}

/// Why an index names no files.
pub enum IndexError {
    /// The document is not JSON; the parser's error says where.
    Unreadable(serde_json::Error),
    /// The document has no weight map.
    NoWeightMap,
    /// The weight map is not an object.
    NotAMap,
}

/// `IndexError` without the parser's error.
#[derive(PartialEq, Eq, Structural)]
pub enum IndexFault {
    Unreadable,
    NoWeightMap,
    NotAMap,
}

impl IndexError {
    /// The fault that the error stands for.
    pub open spec fn fault(self) -> IndexFault {
        match self {
            IndexError::Unreadable(_) => IndexFault::Unreadable,
            IndexError::NoWeightMap => IndexFault::NoWeightMap,
            IndexError::NotAMap => IndexFault::NotAMap,
        }
    }

    /// Every fault of the index is a failure to load the model.
    pub fn kind(&self) -> (kind: PipelineError)
        ensures
            kind == PipelineError::ModelLoad,
    {
        PipelineError::ModelLoad
    }
}

/// The entries of a vector, as plain values.
pub open spec fn entries_view(entries: Seq<Option<String>>) -> Seq<Option<Seq<char>>> {
    Seq::new(
        entries.len(),
        |i: int|
            match entries[i] {
                Some(s) => Some(s@),
                None => None,
            },
    )
}

/// The strings of a vector, as plain values.
pub open spec fn names_view(names: Seq<String>) -> Seq<Seq<char>> {
    Seq::new(names.len(), |i: int| names[i]@)
}

/// The reading that the outcome of parsing stands for.
pub open spec fn reading_of(outcome: Result<IndexContent, serde_json::Error>) -> IndexReading {
    match outcome {
        Err(_) => IndexReading::Unreadable,
        Ok(IndexContent::Missing) => IndexReading::Missing,
        Ok(IndexContent::NotAMap) => IndexReading::NotAMap,
        Ok(IndexContent::Entries(entries)) => IndexReading::Entries(entries_view(entries@)),
    }
}

/// What the JSON parser finds under `key` in the document `index`.
pub uninterp spec fn index_reading(index: Seq<u8>, key: Seq<char>) -> IndexReading;

/// Parses the document with `serde_json::from_slice` into a
/// `serde_json::Value`, looks `key` up with `Value::get` and, where that is
/// an object, walks its values with `Map::values`, keeping of each what
/// `Value::as_str` gives.
///
/// Assumed: the outcome is a function of the document and the key alone.
#[verifier::external_body]
fn read_index(index: &[u8], key: &str) -> (outcome: Result<IndexContent, serde_json::Error>)
    ensures
        reading_of(outcome) == index_reading(index@, key@),
{
    let document: serde_json::Value = serde_json::from_slice(index)?;
    Ok(
        match document.get(key) {
            None => IndexContent::Missing,
            Some(serde_json::Value::Object(map)) => IndexContent::Entries(
                map.values().map(|v| v.as_str().map(|s| s.to_string())).collect(),
            ),
            Some(_) => IndexContent::NotAMap,
        },
    )
}

/// The distinct file names among `entries`, each at the place of its first
/// occurrence; entries that are not strings are skipped.
pub open spec fn file_names(entries: Seq<Option<Seq<char>>>) -> Seq<Seq<char>>
    decreases entries.len(),
{
    if entries.len() == 0 {
        Seq::empty()
    } else {
        let earlier = file_names(entries.drop_last());
        match entries.last() {
            Some(name) => if earlier.contains(name) {
                earlier
            } else {
                earlier.push(name)
            },
            None => earlier,
        }
    }
}

/// The files to fetch for a reading: the distinct names of a weight map,
/// and the fault of a document that is not JSON, has no weight map or has
/// one that is not an object.
pub open spec fn shards_of(reading: IndexReading) -> Result<Seq<Seq<char>>, IndexFault> {
    match reading {
        IndexReading::Entries(entries) => Ok(file_names(entries)),
        IndexReading::Unreadable => Err(IndexFault::Unreadable),
        IndexReading::Missing => Err(IndexFault::NoWeightMap),
        IndexReading::NotAMap => Err(IndexFault::NotAMap),
    }
}

/// The plain value of a result of `shard_files`.
pub open spec fn shards_view(r: Result<Vec<String>, IndexError>) -> Result<
    Seq<Seq<char>>,
    IndexFault,
> {
    match r {
        Ok(names) => Ok(names_view(names@)),
        Err(e) => Err(e.fault()),
    }
}

/// No file is named twice, and a file is named exactly when some entry
/// names it.
pub proof fn lemma_file_names(entries: Seq<Option<Seq<char>>>)
    ensures
        file_names(entries).no_duplicates(),
        forall|name: Seq<char>|
            file_names(entries).contains(name) <==> entries.contains(Some(name)),
    decreases entries.len(),
{
    if entries.len() == 0 {
        assert forall|name: Seq<char>| !entries.contains(Some(name)) by {}
    } else {
        let init = entries.drop_last();
        let earlier = file_names(init);
        lemma_file_names(init);
        assert forall|name: Seq<char>|
            file_names(entries).contains(name) <==> entries.contains(Some(name)) by {
            if entries.contains(Some(name)) {
                let i = choose|i: int| 0 <= i < entries.len() && entries[i] == Some(name);
                if i < init.len() {
                    assert(init[i] == Some(name));
                    assert(init.contains(Some(name)));
                    assert(earlier.contains(name));
                }
            }
            if earlier.contains(name) {
                assert(init.contains(Some(name)));
                let i = choose|i: int| 0 <= i < init.len() && init[i] == Some(name);
                assert(entries[i] == Some(name));
            }
            match entries.last() {
                Some(last) => {
                    if !earlier.contains(last) {
                        let grown = earlier.push(last);
                        assert(grown[earlier.len() as int] == last);
                        if earlier.contains(name) {
                            let k = choose|k: int| 0 <= k < earlier.len() && earlier[k] == name;
                            assert(grown[k] == name);
                        }
                        if grown.contains(name) {
                            let k = choose|k: int| 0 <= k < grown.len() && grown[k] == name;
                            if k < earlier.len() {
                                assert(earlier[k] == name);
                            } else {
                                assert(entries[entries.len() - 1] == Some(name));
                            }
                        }
                    } else if name == last {
                        assert(entries[entries.len() - 1] == Some(name));
                    }
                },
                None => {},
            }
        }
    }
}

/// Whether `names` holds `name`.
fn holds(names: &Vec<String>, name: &String) -> (found: bool)
    ensures
        found == names_view(names@).contains(name@),
{
    let mut i: usize = 0;
    while i < names.len()
        invariant
            i <= names@.len(),
            forall|k: int| 0 <= k < i ==> names_view(names@)[k] != name@,
        decreases names@.len() - i,
    {
        if names[i] == *name {
            assert(names_view(names@)[i as int] == name@);
            return true;
        }
        i = i + 1;
    }
    false
}

/// The files to fetch, given what parsing the index gave.  The parser's
/// error is handed on as it came.
pub fn shard_files(outcome: Result<IndexContent, serde_json::Error>) -> (r: Result<
    Vec<String>,
    IndexError,
>)
    ensures
        shards_view(r) == shards_of(reading_of(outcome)),
        r matches Err(IndexError::Unreadable(cause)) ==> outcome == Err::<
            IndexContent,
            serde_json::Error,
        >(cause),
{
    match outcome {
        Ok(IndexContent::Entries(entries)) => {
            let ghost all = entries_view(entries@);
            let mut names: Vec<String> = Vec::new();
            let mut i: usize = 0;
            assert(all.take(0) =~= Seq::empty());
            assert(names_view(names@) =~= file_names(all.take(0)));
            while i < entries.len()
                invariant
                    i <= entries@.len(),
                    all == entries_view(entries@),
                    names_view(names@) == file_names(all.take(i as int)),
                decreases entries@.len() - i,
            {
                proof {
                    let next = all.take(i + 1);
                    assert(next.drop_last() =~= all.take(i as int));
                    assert(next.last() == all[i as int]);
                }
                let ghost before = names_view(names@);
                match &entries[i] {
                    Some(name) => {
                        if !holds(&names, name) {
                            names.push(name.clone());
                            assert(names_view(names@) =~= before.push(name@));
                        }
                    },
                    None => {},
                }
                i = i + 1;
            }
            assert(all.take(entries@.len() as int) =~= all);
            Ok(names)
        },
        Ok(IndexContent::Missing) => Err(IndexError::NoWeightMap),
        Ok(IndexContent::NotAMap) => Err(IndexError::NotAMap),
        Err(cause) => Err(IndexError::Unreadable(cause)),
    }
}

/// The distinct weight files that a checkpoint index names, each once, in
/// the order of their first occurrence.  Fails when the document is not
/// JSON, has no `weight_map` or has one that is not an object, and says
/// which.
pub fn shards_of_index(index: &[u8]) -> (r: Result<Vec<String>, IndexError>)
    ensures
        shards_view(r) == shards_of(index_reading(index@, weight_map_key())),
{
    shard_files(read_index(index, "weight_map"))
}

} // verus!
