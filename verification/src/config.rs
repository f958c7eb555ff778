use vstd::prelude::*;
use vstd::string::StringExecFns;

verus! {

/// The two failures that resolution and loading surface to the caller.
///
/// Decode failures are never surfaced: a file whose contents cannot be
/// decoded is treated like a missing file and degrades to the default, or to
/// one of these two errors when no default is configured.
#[derive(Clone, Copy, Debug, PartialEq, Eq, Structural)]
pub enum ConfigError {
    /// No candidate directory holds the file, and neither the
    /// create-if-missing flag nor a default allows resolution to proceed.
    NotFound,
    /// No valid file was found and no default value is configured.
    NoDefaultProvided,
}

/// The result of a successful load: the configuration value, and, when the
/// value is a fallback default that should be persisted, the path to write
/// its encoded form to.
///
/// `write_to` is `Some` exactly when the default was returned while a
/// resolved path was available; the caller performs the (best-effort) write.
/// It is `None` whenever a file was read successfully: a load never writes
/// when the primary read succeeds.
#[derive(Debug)]
pub struct ReadOutcome<T> {
    pub value: T,
    pub write_to: Option<String>,
}

/// A configuration file to be located across `directories` and decoded into
/// a value of type `T`.
pub struct ConfigFile<T> {
    /// Logical name, combined with a directory to form a full path.
    pub filename: String,
    /// Ordered search path; empty means "no directory prefix".
    pub directories: Vec<String>,
    /// Fallback value, used only when no file is found or it fails to decode.
    pub default_config: Option<T>,
    /// When true and no candidate file exists, resolution yields the first
    /// directory's path so that the default can be written there.
    pub create_if_missing: bool,
}

/// The path formed from a directory and a filename, always joined with a
/// literal `/`, whatever the host platform.
pub open spec fn path_join(dir: Seq<char>, name: Seq<char>) -> Seq<char> {
    dir + "/"@ + name
}

/// The index of the first candidate at or after `i` that is present, or
/// `present.len()` when none is.
pub open spec fn first_present(present: Seq<bool>, i: int) -> int
    recommends
        0 <= i <= present.len(),
    decreases present.len() - i,
{
    if i < 0 || i >= present.len() {
        present.len() as int
    } else if present[i] {
        i
    } else {
        first_present(present, i + 1)
    }
}

/// What path resolution yields, given which candidate paths exist
/// (`present[i]` says whether `{directories[i]}/{filename}` exists):
/// the first present candidate's path; with no present candidate, the bare
/// `/{filename}` when the directory list is empty, or the first directory's
/// path when a missing file may be created; otherwise nothing.
pub open spec fn spec_location(
    filename: Seq<char>,
    directories: Seq<String>,
    create_if_missing: bool,
    present: Seq<bool>,
) -> Option<Seq<char>>
    recommends
        present.len() == directories.len(),
{
    let k = first_present(present, 0);
    if k < present.len() {
        Some(path_join(directories[k]@, filename))
    } else if directories.len() == 0 {
        Some(path_join(""@, filename))
    } else if create_if_missing {
        Some(path_join(directories[0]@, filename))
    } else {
        None
    }
}

/// `first_present` passes over a stretch of absent candidates.
pub proof fn lemma_first_present_none(present: Seq<bool>, i: int)
    requires
        0 <= i <= present.len(),
        forall|j: int| i <= j < present.len() ==> !present[j],
    ensures
        first_present(present, i) == present.len(),
    decreases present.len() - i,
{
    if i < present.len() {
        lemma_first_present_none(present, i + 1);
    }
}

/// `first_present` lands on a present candidate that only absent ones precede.
pub proof fn lemma_first_present_found(present: Seq<bool>, i: int, k: int)
    requires
        0 <= i <= k < present.len(),
        present[k],
        forall|j: int| i <= j < k ==> !present[j],
    ensures
        first_present(present, i) == k,
    decreases k - i,
{
    if i < k {
        lemma_first_present_found(present, i + 1, k);
    }
}

/// The ghost counterpart of [`ReadOutcome`]: a loaded value together with
/// the path, if any, that the caller should persist it to.
pub struct LoadModel<T> {
    pub value: T,
    pub write_to: Option<Seq<char>>,
}

/// What a load yields, given which candidate paths exist and what decoding
/// the file at the resolved path produced (`decoded` is `None` when there was
/// no file to read or its contents could not be decoded):
/// - resolution succeeded and the file decoded: the decoded value, no write;
/// - resolution succeeded but nothing decoded: the default, to be persisted
///   at the resolved path (overwriting any corrupt content), or
///   [`ConfigError::NoDefaultProvided`] without a default;
/// - resolution failed: the default without persistence, since no path is
///   available to write to, or [`ConfigError::NotFound`] without a default.
pub open spec fn spec_read<T>(
    filename: Seq<char>,
    directories: Seq<String>,
    default_config: Option<T>,
    create_if_missing: bool,
    present: Seq<bool>,
    decoded: Option<T>,
) -> Result<LoadModel<T>, ConfigError>
    recommends
        present.len() == directories.len(),
{
    match spec_location(filename, directories, create_if_missing, present) {
        Some(path) => match decoded {
            Some(v) => Ok(LoadModel { value: v, write_to: None }),
            None => match default_config {
                Some(d) => Ok(LoadModel { value: d, write_to: Some(path) }),
                None => Err(ConfigError::NoDefaultProvided),
            },
        },
        None => match default_config {
            Some(d) => Ok(LoadModel { value: d, write_to: None }),
            None => Err(ConfigError::NotFound),
        },
    }
}

/// Whether an executable load result agrees with its ghost model.
pub open spec fn outcome_matches_model<T>(
    r: Result<ReadOutcome<T>, ConfigError>,
    m: Result<LoadModel<T>, ConfigError>,
) -> bool {
    match (r, m) {
        (Ok(o), Ok(s)) => o.value == s.value && match (o.write_to, s.write_to) {
            (Some(p), Some(q)) => p@ == q,
            (None, None) => true,
            _ => false,
        },
        (Err(e), Err(f)) => e == f,
        _ => false,
    }
}

/// Joins a directory and a filename with a literal `/` separator.
pub fn join_path(dir: &str, name: &str) -> (r: String)
    ensures
        r@ == path_join(dir@, name@),
{
    let mut path = String::from_str(dir);
    path.append("/");
    path.append(name);
    path
}

impl<T> ConfigFile<T> {
    /// A locator for `filename` with no search directories, no default, and
    /// creation of missing files disabled.
    pub fn new(filename: String) -> (r: Self)
        ensures
            r.filename == filename,
            r.directories@ == Seq::<String>::empty(),
            r.default_config is None,
            !r.create_if_missing,
    {
        Self {
            filename,
            directories: Vec::new(),
            default_config: None,
            create_if_missing: false,
        }
    }

    /// Appends one candidate directory to the search path.
    pub fn directory(self, directory: String) -> (r: Self)
        ensures
            r.filename == self.filename,
            r.directories@ == self.directories@.push(directory),
            r.default_config == self.default_config,
            r.create_if_missing == self.create_if_missing,
    {
        let mut updated = self;
        updated.directories.push(directory);
        updated
    }

    /// Sets the fallback value returned when no valid file is found.
    pub fn default(self, default: T) -> (r: Self)
        ensures
            r.filename == self.filename,
            r.directories@ == self.directories@,
            r.default_config == Some(default),
            r.create_if_missing == self.create_if_missing,
    {
        let mut updated = self;
        updated.default_config = Some(default);
        updated
    }

    /// Allows resolution to yield the first directory's path when no
    /// candidate file exists, so that the default can be written there.
    pub fn create_file_if_not_found(self) -> (r: Self)
        ensures
            r.filename == self.filename,
            r.directories@ == self.directories@,
            r.default_config == self.default_config,
            r.create_if_missing,
    {
        let mut updated = self;
        updated.create_if_missing = true;
        updated
    }

    /// Resolves the path of the configuration file, given which candidate
    /// paths exist: `present[i]` reports whether `{directories[i]}/{filename}`
    /// exists on the filesystem.
    ///
    /// Returns the first present candidate's path; with none, the bare
    /// `/{filename}` when the directory list is empty, the first directory's
    /// path when `create_if_missing` is set, and [`ConfigError::NotFound`]
    /// otherwise.
    pub fn location(&self, present: &Vec<bool>) -> (r: Result<String, ConfigError>)
        requires
            present@.len() == self.directories@.len(),
        ensures
            match spec_location(self.filename@, self.directories@, self.create_if_missing, present@) {
                Some(path) => r matches Ok(p) && p@ == path,
                None => r == Err::<String, ConfigError>(ConfigError::NotFound),
            },
    {
        let n = self.directories.len();
        let mut i: usize = 0;
        while i < n
            invariant
                n == self.directories@.len(),
                n == present@.len(),
                i <= n,
                forall|j: int| 0 <= j < i ==> !present@[j],
            decreases n - i,
        {
            if present[i] {
                proof {
                    lemma_first_present_found(present@, 0, i as int);
                }
                return Ok(join_path(self.directories[i].as_str(), self.filename.as_str()));
            }
            i += 1;
        }
        proof {
            lemma_first_present_none(present@, 0);
        }
        if n == 0 {
            Ok(join_path("", self.filename.as_str()))
        } else if self.create_if_missing {
            Ok(join_path(self.directories[0].as_str(), self.filename.as_str()))
        } else {
            Err(ConfigError::NotFound)
        }
    }

    /// Falls back to the configured default: yields it together with the
    /// path it should be persisted to (`path`, when one is available), or
    /// fails with [`ConfigError::NoDefaultProvided`] when no default is
    /// configured.
    pub fn get_config_from_default(self, path: Option<String>) -> (r: Result<
        ReadOutcome<T>,
        ConfigError,
    >)
        ensures
            match self.default_config {
                Some(d) => r matches Ok(o) && o.value == d && o.write_to == path,
                None => r == Err::<ReadOutcome<T>, ConfigError>(ConfigError::NoDefaultProvided),
            },
    {
        match self.default_config {
            Some(config) => Ok(ReadOutcome { value: config, write_to: path }),
            None => Err(ConfigError::NoDefaultProvided),
        }
    }

    /// Loads the configuration, deciding among the decoded file contents,
    /// the default, and failure; [`spec_read`] states the decision in full.
    ///
    /// The caller reports the filesystem and codec outcomes as plain values:
    /// `present[i]` says whether `{directories[i]}/{filename}` exists, and
    /// `decoded` is the decoded contents of the file at the resolved path
    /// (`None` when resolution failed, the file could not be opened, or its
    /// contents could not be decoded). On `Ok(o)` with `o.write_to == Some(p)`
    /// the caller persists the encoded value of `o.value` at `p`, best-effort.
    pub fn read(self, present: &Vec<bool>, decoded: Option<T>) -> (r: Result<
        ReadOutcome<T>,
        ConfigError,
    >)
        requires
            present@.len() == self.directories@.len(),
        ensures
            outcome_matches_model(
                r,
                spec_read(
                    self.filename@,
                    self.directories@,
                    self.default_config,
                    self.create_if_missing,
                    present@,
                    decoded,
                ),
            ),
    {
        match self.location(present) {
            Ok(path) => match decoded {
                Some(value) => Ok(ReadOutcome { value, write_to: None }),
                None => self.get_config_from_default(Some(path)),
            },
            Err(_) => {
                if self.default_config.is_some() {
                    self.get_config_from_default(None)
                } else {
                    Err(ConfigError::NotFound)
                }
            },
        }
    }
}

} // verus!
