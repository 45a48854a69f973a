//! The configuration: built-in values that depend on the home directory,
//! overridden by a configuration file, overridden again by the
//! environment. Every path that lies under the cache or the data
//! directory is set together with that directory and never apart from it:
//! no configuration exists whose paths do not follow its two base
//! directories, and a configuration file sets them through the base
//! directories only.

use crate::text::{decimal_usize, parse_decimal};
use vstd::prelude::*;
use vstd::string::*;

verus! {

/// What a configuration holds.
pub struct ConfigView {
    /// Number of series on a page.
    pub page_size: usize,
    /// Where downloaded series are kept; under the cache directory.
    pub patchsets_cache_dir: Seq<char>,
    /// Where the bookmarked series are written down; under the data
    /// directory.
    pub bookmarked_patchsets_path: Seq<char>,
    /// Where the known mailing lists are written down; under the data
    /// directory.
    pub mailing_lists_path: Seq<char>,
    /// Where the reviewed series are written down; under the data
    /// directory.
    pub reviewed_patchsets_path: Seq<char>,
    /// Where logs go; under the data directory.
    pub logs_path: Seq<char>,
    /// Options handed to the mail transport.
    pub git_send_email_options: Seq<char>,
    /// Base directory of everything cached.
    pub cache_dir: Seq<char>,
    /// Base directory of everything kept.
    pub data_dir: Seq<char>,
    /// Greatest age of a log file, in days.
    pub max_log_age: u64,
}

/// What the overrides of the environment are.
pub struct OverridesView {
    pub page_size: Option<usize>,
    pub cache_dir: Option<Seq<char>>,
    pub data_dir: Option<Seq<char>>,
    pub git_send_email_options: Option<Seq<char>>,
}

impl ConfigView {
    /// The configuration with `dir` as its cache directory and every path
    /// under it set anew.
    pub open spec fn with_cache_dir(self, dir: Seq<char>) -> ConfigView {
        ConfigView { patchsets_cache_dir: dir + "/patchsets"@, cache_dir: dir, ..self }
    }

    /// The configuration with `dir` as its data directory and every path
    /// under it set anew.
    pub open spec fn with_data_dir(self, dir: Seq<char>) -> ConfigView {
        ConfigView {
            bookmarked_patchsets_path: dir + "/bookmarked_patchsets.json"@,
            mailing_lists_path: dir + "/mailing_lists.json"@,
            reviewed_patchsets_path: dir + "/reviewed_patchsets.json"@,
            logs_path: dir + "/logs"@,
            data_dir: dir,
            ..self
        }
    }

    /// Every path that lies under a base directory is the one that goes
    /// with that directory. This holds of every configuration.
    pub open spec fn consistent(self) -> bool {
        self.cache_paths_consistent() && self.data_paths_consistent()
    }

    /// Every path under the cache directory is the one that goes with it.
    pub open spec fn cache_paths_consistent(self) -> bool {
        self.patchsets_cache_dir == self.cache_dir + "/patchsets"@
    }

    /// Every path under the data directory is the one that goes with it.
    pub open spec fn data_paths_consistent(self) -> bool {
        &&& self.bookmarked_patchsets_path == self.data_dir + "/bookmarked_patchsets.json"@
        &&& self.mailing_lists_path == self.data_dir + "/mailing_lists.json"@
        &&& self.reviewed_patchsets_path == self.data_dir + "/reviewed_patchsets.json"@
        &&& self.logs_path == self.data_dir + "/logs"@
    }

    /// The configuration with each override of the environment applied.
    pub open spec fn overridden(self, overrides: OverridesView) -> ConfigView {
        let sized = match overrides.page_size {
            Some(page_size) => ConfigView { page_size, ..self },
            None => self,
        };
        let cached = match overrides.cache_dir {
            Some(dir) => sized.with_cache_dir(dir),
            None => sized,
        };
        let kept = match overrides.data_dir {
            Some(dir) => cached.with_data_dir(dir),
            None => cached,
        };
        match overrides.git_send_email_options {
            Some(options) => ConfigView { git_send_email_options: options, ..kept },
            None => kept,
        }
    }

    /// The directories that must exist before anything is read or written
    /// under them, in the order in which they are made.
    pub open spec fn directories(self) -> Seq<Seq<char>> {
        seq![self.cache_dir, self.data_dir, self.patchsets_cache_dir, self.logs_path]
    }
}

/// The configuration over two base directories: each path under one of
/// them is the one that goes with it.
pub open spec fn config_over(
    page_size: usize,
    git_send_email_options: Seq<char>,
    cache_dir: Seq<char>,
    data_dir: Seq<char>,
    max_log_age: u64,
) -> ConfigView {
    ConfigView {
        page_size,
        patchsets_cache_dir: cache_dir + "/patchsets"@,
        bookmarked_patchsets_path: data_dir + "/bookmarked_patchsets.json"@,
        mailing_lists_path: data_dir + "/mailing_lists.json"@,
        reviewed_patchsets_path: data_dir + "/reviewed_patchsets.json"@,
        logs_path: data_dir + "/logs"@,
        git_send_email_options,
        cache_dir,
        data_dir,
        max_log_age,
    }
}

/// The built-in configuration for a home directory.
pub open spec fn default_config(home: Seq<char>) -> ConfigView {
    ConfigView {
        page_size: 30,
        patchsets_cache_dir: home + "/.cache/patch_hub"@ + "/patchsets"@,
        bookmarked_patchsets_path: home + "/.local/share/patch_hub"@
            + "/bookmarked_patchsets.json"@,
        mailing_lists_path: home + "/.local/share/patch_hub"@ + "/mailing_lists.json"@,
        reviewed_patchsets_path: home + "/.local/share/patch_hub"@ + "/reviewed_patchsets.json"@,
        logs_path: home + "/.local/share/patch_hub"@ + "/logs"@,
        git_send_email_options: "--dry-run --suppress-cc=all"@,
        cache_dir: home + "/.cache/patch_hub"@,
        data_dir: home + "/.local/share/patch_hub"@,
        max_log_age: 0,
    }
}

/// Where the configuration file lies unless the environment names another
/// place.
pub open spec fn default_config_path(home: Seq<char>) -> Seq<char> {
    home + "/.local/share/patch_hub/config.json"@
}

/// The places where a configuration file is looked for, in order: the one
/// that the environment names, if it names one, then the default one.
pub open spec fn config_candidates(home: Seq<char>, named: Option<Seq<char>>) -> Seq<Seq<char>> {
    match named {
        Some(path) => seq![path, default_config_path(home)],
        None => seq![default_config_path(home)],
    }
}

/// Where the configuration is saved: the place that the environment names,
/// else the default one.
pub open spec fn config_destination(home: Seq<char>, named: Option<Seq<char>>) -> Seq<char> {
    match named {
        Some(path) => path,
        None => default_config_path(home),
    }
}

/// The configuration of the first place, in order, at which one could be
/// read; `None` where none could be read at any.
pub open spec fn first_read(read: Seq<Option<Config>>) -> Option<Config>
    decreases read.len(),
{
    if read.len() == 0 {
        None
    } else if read[0] is Some {
        read[0]
    } else {
        first_read(read.drop_first())
    }
}

/// The first configuration that could be read is the one before which none
/// could.
pub proof fn lemma_first_read(read: Seq<Option<Config>>, at: int)
    requires
        0 <= at <= read.len(),
        forall|j: int| 0 <= j < at ==> read[j] is None,
        at < read.len() ==> read[at] is Some,
    ensures
        first_read(read) == if at < read.len() {
            read[at]
        } else {
            None
        },
    decreases read.len(),
{
    if at > 0 {
        let rest = read.drop_first();
        lemma_first_read(rest, at - 1);
    }
}

/// The resolved configuration: the built-in one, the one of the
/// configuration file in its place where a file was read, and the
/// overrides of the environment on top.
pub open spec fn resolved_config(
    home: Seq<char>,
    from_file: Option<ConfigView>,
    overrides: OverridesView,
) -> ConfigView {
    match from_file {
        Some(config) => config.overridden(overrides),
        None => default_config(home).overridden(overrides),
    }
}

/// The overrides that the environment holds; `None` where it holds none.
pub struct EnvOverrides {
    pub page_size: Option<usize>,
    pub cache_dir: Option<String>,
    pub data_dir: Option<String>,
    pub git_send_email_options: Option<String>,
}

/// The text of an optional string.
pub open spec fn text_of(value: Option<String>) -> Option<Seq<char>> {
    match value {
        Some(text) => Some(text@),
        None => None,
    }
}

impl View for EnvOverrides {
    type V = OverridesView;

    open spec fn view(&self) -> OverridesView {
        OverridesView {
            page_size: self.page_size,
            cache_dir: text_of(self.cache_dir),
            data_dir: text_of(self.data_dir),
            git_send_email_options: text_of(self.git_send_email_options),
        }
    }
}

/// The overrides that texts of the environment stand for, where the text
/// for the page size, if there is one, is an unsigned decimal number.
pub open spec fn overrides_from_texts(
    page_size: Option<Seq<char>>,
    cache_dir: Option<Seq<char>>,
    data_dir: Option<Seq<char>>,
    git_send_email_options: Option<Seq<char>>,
) -> Option<OverridesView> {
    match page_size {
        Some(text) => match decimal_usize(text) {
            Some(size) => Some(
                OverridesView {
                    page_size: Some(size),
                    cache_dir,
                    data_dir,
                    git_send_email_options,
                },
            ),
            None => None,
        },
        None => Some(
            OverridesView { page_size: None, cache_dir, data_dir, git_send_email_options },
        ),
    }
}

impl EnvOverrides {
    /// No override at all.
    pub fn none() -> (overrides: EnvOverrides)
        ensures
            overrides@ == (OverridesView {
                page_size: None,
                cache_dir: None,
                data_dir: None,
                git_send_email_options: None,
            }),
    {
        EnvOverrides {
            page_size: None,
            cache_dir: None,
            data_dir: None,
            git_send_email_options: None,
        }
    }

    /// The overrides that the texts found in the environment stand for.
    /// `None` where a page size is given that is no unsigned decimal
    /// number.
    pub fn from_texts(
        page_size: Option<String>,
        cache_dir: Option<String>,
        data_dir: Option<String>,
        git_send_email_options: Option<String>,
    ) -> (overrides: Option<EnvOverrides>)
        ensures
            match overrides_from_texts(
                text_of(page_size),
                text_of(cache_dir),
                text_of(data_dir),
                text_of(git_send_email_options),
            ) {
                Some(expected) => overrides matches Some(found) && found@ == expected,
                None => overrides is None,
            },
    {
        let size = match page_size {
            Some(text) => match parse_decimal(text.as_str()) {
                Some(size) => Some(size),
                None => {
                    return None;
                },
            },
            None => None,
        };
        Some(EnvOverrides { page_size: size, cache_dir, data_dir, git_send_email_options })
    }
}

/// The cache directory and what lies under it.
struct CachePaths {
    cache_dir: String,
    patchsets_cache_dir: String,
}

/// The data directory and what lies under it.
struct DataPaths {
    data_dir: String,
    bookmarked_patchsets_path: String,
    mailing_lists_path: String,
    reviewed_patchsets_path: String,
    logs_path: String,
}

/// The configuration of the tool. Its paths under the cache and the data
/// directory always follow those directories.
pub struct Config {
    page_size: usize,
    cache: CachePaths,
    data: DataPaths,
    git_send_email_options: String,
    max_log_age: u64,
}

impl View for Config {
    type V = ConfigView;

    closed spec fn view(&self) -> ConfigView {
        ConfigView {
            page_size: self.page_size,
            patchsets_cache_dir: self.cache.patchsets_cache_dir@,
            bookmarked_patchsets_path: self.data.bookmarked_patchsets_path@,
            mailing_lists_path: self.data.mailing_lists_path@,
            reviewed_patchsets_path: self.data.reviewed_patchsets_path@,
            logs_path: self.data.logs_path@,
            git_send_email_options: self.git_send_email_options@,
            cache_dir: self.cache.cache_dir@,
            data_dir: self.data.data_dir@,
            max_log_age: self.max_log_age,
        }
    }
}

/// `base` followed by `tail`.
fn joined(base: &String, tail: &str) -> (path: String)
    ensures
        path@ == base@ + tail@,
{
    base.clone().concat(tail)
}

impl CachePaths {
    #[verifier::type_invariant]
    spec fn follows_base(self) -> bool {
        self.patchsets_cache_dir@ == self.cache_dir@ + "/patchsets"@
    }

    /// The cache directory `cache_dir` with what lies under it.
    fn new(cache_dir: String) -> (paths: CachePaths)
        ensures
            paths.cache_dir@ == cache_dir@,
            paths.patchsets_cache_dir@ == cache_dir@ + "/patchsets"@,
    {
        CachePaths { patchsets_cache_dir: joined(&cache_dir, "/patchsets"), cache_dir }
    }
}

impl DataPaths {
    #[verifier::type_invariant]
    spec fn follows_base(self) -> bool {
        &&& self.bookmarked_patchsets_path@ == self.data_dir@ + "/bookmarked_patchsets.json"@
        &&& self.mailing_lists_path@ == self.data_dir@ + "/mailing_lists.json"@
        &&& self.reviewed_patchsets_path@ == self.data_dir@ + "/reviewed_patchsets.json"@
        &&& self.logs_path@ == self.data_dir@ + "/logs"@
    }

    /// The data directory `data_dir` with what lies under it.
    fn new(data_dir: String) -> (paths: DataPaths)
        ensures
            paths.data_dir@ == data_dir@,
            paths.bookmarked_patchsets_path@ == data_dir@ + "/bookmarked_patchsets.json"@,
            paths.mailing_lists_path@ == data_dir@ + "/mailing_lists.json"@,
            paths.reviewed_patchsets_path@ == data_dir@ + "/reviewed_patchsets.json"@,
            paths.logs_path@ == data_dir@ + "/logs"@,
    {
        DataPaths {
            bookmarked_patchsets_path: joined(&data_dir, "/bookmarked_patchsets.json"),
            mailing_lists_path: joined(&data_dir, "/mailing_lists.json"),
            reviewed_patchsets_path: joined(&data_dir, "/reviewed_patchsets.json"),
            logs_path: joined(&data_dir, "/logs"),
            data_dir,
        }
    }
}

impl Config {
    /// The built-in configuration for the home directory `home`.
    pub fn default(home: &str) -> (config: Config)
        ensures
            config@ == default_config(home@),
            config@.consistent(),
    {
        let cache_dir = String::from_str(home).concat("/.cache/patch_hub");
        let data_dir = String::from_str(home).concat("/.local/share/patch_hub");
        Config {
            page_size: 30,
            cache: CachePaths::new(cache_dir),
            data: DataPaths::new(data_dir),
            git_send_email_options: String::from_str("--dry-run --suppress-cc=all"),
            max_log_age: 0,
        }
    }

    /// The configuration that holds the given values, with every path that
    /// lies under one of the two base directories set from that directory.
    /// This is how a configuration read from a file comes to be: the paths
    /// that the file gives under a base directory count for nothing.
    pub fn from_parts(
        page_size: usize,
        git_send_email_options: String,
        cache_dir: String,
        data_dir: String,
        max_log_age: u64,
    ) -> (config: Config)
        ensures
            config@ == config_over(
                page_size,
                git_send_email_options@,
                cache_dir@,
                data_dir@,
                max_log_age,
            ),
            config@.consistent(),
    {
        Config {
            page_size,
            cache: CachePaths::new(cache_dir),
            data: DataPaths::new(data_dir),
            git_send_email_options,
            max_log_age,
        }
    }

    /// The places where a configuration file is looked for, in order. The
    /// first that holds a readable configuration is the one to take.
    pub fn config_file_candidates(home: &str, config_path: Option<String>) -> (paths: Vec<String>)
        ensures
            paths@.map_values(|path: String| path@) == config_candidates(
                home@,
                text_of(config_path),
            ),
    {
        let mut paths: Vec<String> = Vec::new();
        if let Some(path) = config_path {
            paths.push(path);
        }
        paths.push(String::from_str(home).concat("/.local/share/patch_hub/config.json"));
        paths
    }

    /// Picks the configuration file to go by: out of what could be read at
    /// each place where one is looked for, in order, the first. A place
    /// whose file is missing, unreadable or no configuration counts for
    /// nothing.
    pub fn detect_patch_hub_config_file(read: Vec<Option<Config>>) -> (config: Option<Config>)
        ensures
            config == first_read(read@),
    {
        let mut outcomes = read;
        let mut i: usize = 0;
        while i < outcomes.len()
            invariant
                outcomes@ == read@,
                i <= outcomes.len(),
                forall|j: int| 0 <= j < i ==> outcomes[j] is None,
            decreases outcomes.len() - i,
        {
            if outcomes[i].is_some() {
                proof {
                    lemma_first_read(outcomes@, i as int);
                }
                return outcomes.remove(i);
            }
            i = i + 1;
        }
        proof {
            lemma_first_read(outcomes@, i as int);
        }
        None
    }

    /// Applies each override that the environment holds.
    pub fn override_with_env_vars(&mut self, overrides: EnvOverrides)
        ensures
            final(self)@ == old(self)@.overridden(overrides@),
            final(self)@.consistent(),
    {
        if let Some(page_size) = overrides.page_size {
            self.page_size = page_size;
        }
        if let Some(cache_dir) = overrides.cache_dir {
            self.set_cache_dir(cache_dir);
        }
        if let Some(data_dir) = overrides.data_dir {
            self.set_data_dir(data_dir);
        }
        if let Some(git_send_email_options) = overrides.git_send_email_options {
            self.git_send_email_options = git_send_email_options;
        }
        proof {
            use_type_invariant(&self.cache);
            use_type_invariant(&self.data);
        }
    }

    /// Resolves the configuration: the built-in one for `home`, replaced by
    /// the one read from a configuration file where there is one, with the
    /// overrides of the environment applied on top.
    pub fn build(home: &str, config_from_file: Option<Config>, overrides: EnvOverrides) -> (config:
        Config)
        ensures
            config@ == resolved_config(
                home@,
                match config_from_file {
                    Some(read) => Some(read@),
                    None => None,
                },
                overrides@,
            ),
            config@.consistent(),
    {
        let mut config = Config::default(home);
        if let Some(read) = config_from_file {
            config = read;
        }
        config.override_with_env_vars(overrides);
        config
    }

    pub fn page_size(&self) -> (page_size: usize)
        ensures
            page_size == self@.page_size,
    {
        self.page_size
    }

    pub fn patchsets_cache_dir(&self) -> (path: &String)
        ensures
            path@ == self@.patchsets_cache_dir,
            path@ == self@.cache_dir + "/patchsets"@,
    {
        proof {
            use_type_invariant(&self.cache);
        }
        &self.cache.patchsets_cache_dir
    }

    pub fn bookmarked_patchsets_path(&self) -> (path: &String)
        ensures
            path@ == self@.bookmarked_patchsets_path,
            path@ == self@.data_dir + "/bookmarked_patchsets.json"@,
    {
        proof {
            use_type_invariant(&self.data);
        }
        &self.data.bookmarked_patchsets_path
    }

    pub fn mailing_lists_path(&self) -> (path: &String)
        ensures
            path@ == self@.mailing_lists_path,
            path@ == self@.data_dir + "/mailing_lists.json"@,
    {
        proof {
            use_type_invariant(&self.data);
        }
        &self.data.mailing_lists_path
    }

    pub fn reviewed_patchsets_path(&self) -> (path: &String)
        ensures
            path@ == self@.reviewed_patchsets_path,
            path@ == self@.data_dir + "/reviewed_patchsets.json"@,
    {
        proof {
            use_type_invariant(&self.data);
        }
        &self.data.reviewed_patchsets_path
    }

    pub fn logs_path(&self) -> (path: &String)
        ensures
            path@ == self@.logs_path,
            path@ == self@.data_dir + "/logs"@,
    {
        proof {
            use_type_invariant(&self.data);
        }
        &self.data.logs_path
    }

    pub fn git_send_email_options(&self) -> (options: &String)
        ensures
            options@ == self@.git_send_email_options,
    {
        &self.git_send_email_options
    }

    pub fn cache_dir(&self) -> (path: &String)
        ensures
            path@ == self@.cache_dir,
    {
        &self.cache.cache_dir
    }

    pub fn data_dir(&self) -> (path: &String)
        ensures
            path@ == self@.data_dir,
    {
        &self.data.data_dir
    }

    pub fn max_log_age(&self) -> (days: &u64)
        ensures
            *days == self@.max_log_age,
    {
        &self.max_log_age
    }

    pub fn set_page_size(&mut self, page_size: usize)
        ensures
            final(self)@ == (ConfigView { page_size, ..old(self)@ }),
            final(self)@.consistent(),
    {
        self.page_size = page_size;
        proof {
            use_type_invariant(&self.cache);
            use_type_invariant(&self.data);
        }
    }

    /// Sets the cache directory, and with it every path under it.
    pub fn set_cache_dir(&mut self, cache_dir: String)
        ensures
            final(self)@ == old(self)@.with_cache_dir(cache_dir@),
            final(self)@.consistent(),
    {
        self.cache = CachePaths::new(cache_dir);
        proof {
            use_type_invariant(&self.cache);
            use_type_invariant(&self.data);
        }
    }

    /// Sets the data directory, and with it every path under it.
    pub fn set_data_dir(&mut self, data_dir: String)
        ensures
            final(self)@ == old(self)@.with_data_dir(data_dir@),
            final(self)@.consistent(),
    {
        self.data = DataPaths::new(data_dir);
        proof {
            use_type_invariant(&self.cache);
            use_type_invariant(&self.data);
        }
    }

    pub fn set_git_send_email_option(&mut self, git_send_email_options: String)
        ensures
            final(self)@ == (ConfigView {
                git_send_email_options: git_send_email_options@,
                ..old(self)@
            }),
            final(self)@.consistent(),
    {
        self.git_send_email_options = git_send_email_options;
        proof {
            use_type_invariant(&self.cache);
            use_type_invariant(&self.data);
        }
    }

    /// The directories that must exist before anything is read or written
    /// under them, in the order in which they are to be made.
    pub fn directories(&self) -> (paths: Vec<String>)
        ensures
            paths@.map_values(|path: String| path@) == self@.directories(),
    {
        let mut paths: Vec<String> = Vec::new();
        paths.push(self.cache.cache_dir.clone());
        paths.push(self.data.data_dir.clone());
        paths.push(self.cache.patchsets_cache_dir.clone());
        paths.push(self.data.logs_path.clone());
        paths
    }
}

/// The two places that saving the configuration writes to.
pub struct SavePaths {
    /// Written first, in full.
    pub temporary: String,
    /// Where the configuration ends up: the temporary file is renamed to
    /// this once it is complete.
    pub destination: String,
}

/// Where saving the configuration writes: into a temporary file beside the
/// destination, which then takes the destination's place. The destination
/// is the place that the environment names, else the default one.
pub fn save_paths(home: &str, config_path: Option<String>) -> (paths: SavePaths)
    ensures
        paths.destination@ == config_destination(home@, text_of(config_path)),
        paths.temporary@ == paths.destination@ + ".tmp"@,
        paths.temporary@ != paths.destination@,
{
    let destination = match config_path {
        Some(path) => path,
        None => String::from_str(home).concat("/.local/share/patch_hub/config.json"),
    };
    let temporary = joined(&destination, ".tmp");
    proof {
        lemma_temporary_path_differs(destination@);
    }
    SavePaths { temporary, destination }
}

/// The temporary file of a save is never the destination itself, so that
/// writing it leaves the destination as it was.
pub proof fn lemma_temporary_path_differs(destination: Seq<char>)
    ensures
        destination + ".tmp"@ != destination,
{
    reveal_strlit(".tmp");
}

/// Setting a base directory makes every path under it consistent with it
/// and leaves the paths under the other base directory alone; the built-in
/// configuration is consistent, and so is every configuration resolved,
/// with a file or without, whatever the environment overrides.
pub proof fn lemma_derived_paths_follow_base(
    config: ConfigView,
    dir: Seq<char>,
    home: Seq<char>,
    overrides: OverridesView,
)
    ensures
        config.with_cache_dir(dir).cache_paths_consistent(),
        config.with_data_dir(dir).data_paths_consistent(),
        config.data_paths_consistent() ==> config.with_cache_dir(dir).data_paths_consistent(),
        config.cache_paths_consistent() ==> config.with_data_dir(dir).cache_paths_consistent(),
        default_config(home).cache_paths_consistent(),
        default_config(home).data_paths_consistent(),
        config.cache_paths_consistent() ==> config.overridden(overrides).cache_paths_consistent(),
        config.data_paths_consistent() ==> config.overridden(overrides).data_paths_consistent(),
        resolved_config(home, None, overrides).cache_paths_consistent(),
        resolved_config(home, None, overrides).data_paths_consistent(),
        config.consistent() ==> resolved_config(home, Some(config), overrides).consistent(),
        config_over(
            config.page_size,
            config.git_send_email_options,
            config.cache_dir,
            config.data_dir,
            config.max_log_age,
        ).consistent(),
{
}

/// With no configuration file and no override but one for the page size,
/// the resolved configuration is the built-in one with that page size.
pub proof fn lemma_only_page_size_overridden(home: Seq<char>, page_size: usize)
    ensures
        resolved_config(
            home,
            None,
            OverridesView {
                page_size: Some(page_size),
                cache_dir: None,
                data_dir: None,
                git_send_email_options: None,
            },
        ) == (ConfigView { page_size, ..default_config(home) }),
{
}

} // verus!
