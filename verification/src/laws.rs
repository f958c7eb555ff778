use vstd::prelude::*;

use crate::config::{
    lemma_first_present_found, lemma_first_present_none, path_join, spec_location, spec_read,
    ConfigError, LoadModel,
};

verus! {

/// Found-file precedence: when directory `i` is the first whose candidate
/// path exists and the file there decodes to `v`, a load yields `v` from that
/// path and persists nothing — whatever default is configured and whatever
/// directories follow `i`.
pub proof fn lemma_found_file_precedence<T>(
    filename: Seq<char>,
    directories: Seq<String>,
    default_config: Option<T>,
    create_if_missing: bool,
    present: Seq<bool>,
    v: T,
    i: int,
)
    requires
        present.len() == directories.len(),
        0 <= i < present.len(),
        present[i],
        forall|j: int| 0 <= j < i ==> !present[j],
    ensures
        spec_location(filename, directories, create_if_missing, present)
            == Some(path_join(directories[i]@, filename)),
        spec_read(filename, directories, default_config, create_if_missing, present, Some(v))
            == Ok::<LoadModel<T>, ConfigError>(LoadModel { value: v, write_to: None }),
{
    lemma_first_present_found(present, 0, i);
}

/// Default fallback: when no candidate path exists, nothing was decoded, and
/// a default `d` is configured, a load succeeds with a value equal to `d`.
pub proof fn lemma_default_fallback<T>(
    filename: Seq<char>,
    directories: Seq<String>,
    d: T,
    create_if_missing: bool,
    present: Seq<bool>,
)
    requires
        present.len() == directories.len(),
        forall|j: int| 0 <= j < present.len() ==> !present[j],
    ensures
        spec_read(filename, directories, Some(d), create_if_missing, present, None::<T>)
            matches Ok(m) && m.value == d,
{
    lemma_first_present_none(present, 0);
}

/// No-default failure: when no candidate path exists, nothing was decoded, no
/// default is configured, and resolution still yields a path (the directory
/// list is empty, or a missing file may be created), a load fails with
/// [`ConfigError::NoDefaultProvided`].
pub proof fn lemma_no_default_failure<T>(
    filename: Seq<char>,
    directories: Seq<String>,
    create_if_missing: bool,
    present: Seq<bool>,
)
    requires
        present.len() == directories.len(),
        forall|j: int| 0 <= j < present.len() ==> !present[j],
        directories.len() == 0 || create_if_missing,
    ensures
        spec_read(filename, directories, None::<T>, create_if_missing, present, None::<T>)
            == Err::<LoadModel<T>, ConfigError>(ConfigError::NoDefaultProvided),
{
    lemma_first_present_none(present, 0);
}

/// No-create, no-match failure: with a non-empty directory list, no matching
/// file, and `create_if_missing` unset, resolution fails; and a load without
/// a default fails with [`ConfigError::NotFound`], whatever `decoded` holds.
pub proof fn lemma_no_create_no_match_failure<T>(
    filename: Seq<char>,
    directories: Seq<String>,
    present: Seq<bool>,
    decoded: Option<T>,
)
    requires
        present.len() == directories.len(),
        directories.len() > 0,
        forall|j: int| 0 <= j < present.len() ==> !present[j],
    ensures
        spec_location(filename, directories, false, present) is None,
        spec_read(filename, directories, None::<T>, false, present, decoded)
            == Err::<LoadModel<T>, ConfigError>(ConfigError::NotFound),
{
    lemma_first_present_none(present, 0);
}

/// Create-and-persist: with a non-empty directory list, no matching file,
/// `create_if_missing` set, and a default `d`, a load yields `d` and directs
/// the caller to persist it at `{first_directory}/{filename}`.
pub proof fn lemma_create_and_persist<T>(
    filename: Seq<char>,
    directories: Seq<String>,
    d: T,
    present: Seq<bool>,
)
    requires
        present.len() == directories.len(),
        directories.len() > 0,
        forall|j: int| 0 <= j < present.len() ==> !present[j],
    ensures
        spec_read(filename, directories, Some(d), true, present, None::<T>)
            == Ok::<LoadModel<T>, ConfigError>(
            LoadModel { value: d, write_to: Some(path_join(directories[0]@, filename)) },
        ),
{
    lemma_first_present_none(present, 0);
}

/// Corrupt-file fallback: when directory `i` is the first whose candidate
/// path exists but the file's contents could not be decoded, a load with a
/// default `d` succeeds with `d` rather than failing, and directs the caller
/// to overwrite the corrupt file at the resolved path.
pub proof fn lemma_corrupt_file_fallback<T>(
    filename: Seq<char>,
    directories: Seq<String>,
    d: T,
    create_if_missing: bool,
    present: Seq<bool>,
    i: int,
)
    requires
        present.len() == directories.len(),
        0 <= i < present.len(),
        present[i],
        forall|j: int| 0 <= j < i ==> !present[j],
    ensures
        spec_read(filename, directories, Some(d), create_if_missing, present, None::<T>)
            == Ok::<LoadModel<T>, ConfigError>(
            LoadModel { value: d, write_to: Some(path_join(directories[i]@, filename)) },
        ),
{
    lemma_first_present_found(present, 0, i);
}

} // verus!
