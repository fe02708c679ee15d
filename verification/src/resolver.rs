use vstd::prelude::*;

use crate::os::Environment;

verus! {

/// The four logical blockchain data file names, as configured.
pub struct BlockFiles {
    pub main: String,
    pub index: String,
    pub cache: String,
    pub chain_index: String,
}

/// The part of the node configuration that path resolution reads: the coin
/// name and the four logical file names.
pub struct Config {
    pub coin_name: String,
    pub files: BlockFiles,
}

/// Why a path could not be resolved.
#[derive(Debug, Clone, Copy, PartialEq, Eq, Structural)]
pub enum PathError {
    /// The operating system did not supply the base directory that the
    /// chosen layout needs: the home directory for the legacy layout, the
    /// standard data directory otherwise.
    EnvironmentDirectoryUnavailable,
}

/// Resolves absolute paths for the four blockchain data files, either under
/// the legacy dot-prefixed directory in the user's home directory or under
/// the platform-standard per-user data directory.
pub struct Currency {
    pub config: Config,
    pub is_home_dir: bool,
    pub env: Environment,
}

impl Currency {
    /// The legacy home-directory layout applies: it was requested and the
    /// platform is Unix-like.
    pub open spec fn uses_home(self) -> bool {
        self.is_home_dir && self.env.unix_like
    }

    /// The base directory of the chosen layout, if the environment
    /// supplies it.
    pub open spec fn base_dir(self) -> Option<Seq<char>> {
        if self.uses_home() {
            match self.env.home_dir {
                Option::Some(h) => Option::Some(h@),
                Option::None => Option::None,
            }
        } else {
            match self.env.data_dir {
                Option::Some(d) => Option::Some(d@),
                Option::None => Option::None,
            }
        }
    }

    /// The coin-name path component: dot-prefixed under the legacy layout,
    /// the bare coin name otherwise.
    pub open spec fn coin_component(self) -> Seq<char> {
        if self.uses_home() {
            seq!['.'] + self.config.coin_name@
        } else {
            self.config.coin_name@
        }
    }

    /// Everything before the final path segment, trailing separator included.
    pub open spec fn dir_prefix(self) -> Seq<char>
        recommends
            self.base_dir() is Some,
    {
        self.base_dir()->Some_0 + self.env.separator@ + self.coin_component()
            + self.env.separator@
    }

    /// The absolute path resolved for the logical file name `name`.
    pub open spec fn resolved(self, name: Seq<char>) -> Seq<char>
        recommends
            self.base_dir() is Some,
    {
        self.dir_prefix() + name
    }

    /// What resolving `name` returns: the resolved path whenever the
    /// environment supplies the base directory, and the error exactly when
    /// it does not.
    pub open spec fn resolution_ok(self, name: Seq<char>, r: Result<String, PathError>) -> bool {
        match self.base_dir() {
            Option::Some(_) => r matches Result::Ok(p) && p@ == self.resolved(name),
            Option::None => r == Result::<String, PathError>::Err(
                PathError::EnvironmentDirectoryUnavailable,
            ),
        }
    }

    /// Resolve the absolute path for one logical file name.
    pub fn get_files(&self, name: &String) -> (r: Result<String, PathError>)
        ensures
            self.resolution_ok(name@, r),
    {
        let base: &String = if self.is_home_dir && self.env.unix_like {
            match &self.env.home_dir {
                Option::Some(h) => h,
                Option::None => {
                    return Result::Err(PathError::EnvironmentDirectoryUnavailable);
                },
            }
        } else {
            match &self.env.data_dir {
                Option::Some(d) => d,
                Option::None => {
                    return Result::Err(PathError::EnvironmentDirectoryUnavailable);
                },
            }
        };
        let mut path: String = base.clone();
        path.append(self.env.separator.as_str());
        if self.is_home_dir && self.env.unix_like {
            proof {
                reveal_strlit(".");
            }
            path.append(".");
        }
        path.append(self.config.coin_name.as_str());
        path.append(self.env.separator.as_str());
        path.append(name.as_str());
        proof {
            assert(path@ =~= self.resolved(name@));
        }
        Result::Ok(path)
    }

    /// The path the main-file accessor resolves.
    pub open spec fn spec_main_file(self) -> Seq<char> {
        self.resolved(self.config.files.main@)
    }

    /// The path the index-file accessor resolves.
    pub open spec fn spec_index_file(self) -> Seq<char> {
        self.resolved(self.config.files.index@)
    }

    /// The path the cache-file accessor resolves.
    pub open spec fn spec_cache_file(self) -> Seq<char> {
        self.resolved(self.config.files.cache@)
    }

    /// The path the chain-index-file accessor resolves.
    pub open spec fn spec_chain_index_file(self) -> Seq<char> {
        self.resolved(self.config.files.chain_index@)
    }

    /// The resolved path of the main block file.
    pub fn get_block_main_file(&self) -> (r: Result<String, PathError>)
        ensures
            self.resolution_ok(self.config.files.main@, r),
    {
        self.get_files(&self.config.files.main)
    }

    /// The resolved path of the block cache file.
    pub fn get_block_cache_file(&self) -> (r: Result<String, PathError>)
        ensures
            self.resolution_ok(self.config.files.cache@, r),
    {
        self.get_files(&self.config.files.cache)
    }

    /// The resolved path of the block index file.
    pub fn get_block_index_file(&self) -> (r: Result<String, PathError>)
        ensures
            self.resolution_ok(self.config.files.index@, r),
    {
        self.get_files(&self.config.files.index)
    }

    /// The resolved path of the blockchain index file.
    pub fn get_block_chain_index_file(&self) -> (r: Result<String, PathError>)
        ensures
            self.resolution_ok(self.config.files.chain_index@, r),
    {
        self.get_files(&self.config.files.chain_index)
    }

    /// A resolver using the platform-standard data-directory layout, with
    /// the directories read from the process environment.
    pub fn new(config: Config) -> (c: Currency)
        ensures
            c.config == config,
            !c.is_home_dir,
            c.env.wf(),
    {
        Currency { config, is_home_dir: false, env: Environment::current() }
    }

    /// A resolver using the legacy home-directory layout, with the
    /// directories read from the process environment.
    pub fn legacy(config: Config) -> (c: Currency)
        ensures
            c.config == config,
            c.is_home_dir,
            c.env.wf(),
    {
        Currency { config, is_home_dir: true, env: Environment::current() }
    }

    /// A standard-layout resolver over an explicitly supplied environment.
    pub fn new_in(config: Config, env: Environment) -> (c: Currency)
        ensures
            c == (Currency { config, is_home_dir: false, env }),
    {
        Currency { config, is_home_dir: false, env }
    }

    /// A legacy-layout resolver over an explicitly supplied environment.
    pub fn legacy_in(config: Config, env: Environment) -> (c: Currency)
        ensures
            c == (Currency { config, is_home_dir: true, env }),
    {
        Currency { config, is_home_dir: true, env }
    }
}

} // verus!
