//! Configuration: where the manager keeps its files.
//!
//! The root is `GVM_ROOT_PATH` when set, otherwise `.gvm` in the home
//! directory (`USERPROFILE`, then `HOME`). The versions and cache directories
//! are `GVM_VERSIONS_PATH` and `GVM_CACHE_PATH` when set, otherwise
//! `versions` and `cache` under the root.
use vstd::prelude::*;
use crate::error::GvmError;
use crate::paths::{join, path_join};

verus! {

/// The root directory chosen from the environment, if any can be.
pub open spec fn root_path_of(
    gvm_root: Option<Seq<char>>,
    user_profile: Option<Seq<char>>,
    home: Option<Seq<char>>,
) -> Option<Seq<char>> {
    match gvm_root {
        Some(r) => Some(r),
        None => match user_profile {
            Some(h) => Some(path_join(h, ".gvm"@)),
            None => match home {
                Some(h) => Some(path_join(h, ".gvm"@)),
                None => None,
            },
        },
    }
}

/// The view of an optional string argument.
pub open spec fn opt_view(o: Option<&str>) -> Option<Seq<char>> {
    match o {
        Some(s) => Some(s@),
        None => None,
    }
}

/// A directory chosen by an override, or `default` under the root.
pub open spec fn sub_path_of(root: Seq<char>, overridden: Option<Seq<char>>, default: Seq<char>) -> Seq<char> {
    match overridden {
        Some(p) => p,
        None => path_join(root, default),
    }
}

/// The first failed directory creation, as its context and the error's
/// text, pairing each directory to create with the outcome of creating it.
pub open spec fn first_creation_failure(todo: Seq<DirCreation>, outcomes: Seq<Result<(), String>>) -> Option<(Seq<char>, Seq<char>)>
    decreases outcomes.len(),
{
    if todo.len() == 0 || outcomes.len() == 0 {
        None
    } else {
        match outcomes[0] {
            Err(detail) => Some((todo[0].failure_context@, detail@)),
            Ok(_) => first_creation_failure(todo.drop_first(), outcomes.drop_first()),
        }
    }
}

/// Configuration manager for GVM.
#[derive(Debug, Clone)]
pub struct Config {
    /// Root directory for GVM installation
    pub root_path: String,
    /// Directory containing installed Go versions
    pub versions_path: String,
    /// Directory for cached downloads
    pub cache_path: String,
}

/// A directory to create, and the context of the error if creating it fails.
#[derive(Debug, Clone)]
pub struct DirCreation {
    pub path: String,
    pub failure_context: String,
}

impl Config {
    /// Creates the configuration from the values of `GVM_ROOT_PATH`,
    /// `USERPROFILE`, `HOME`, `GVM_VERSIONS_PATH` and `GVM_CACHE_PATH`
    /// (`None` where a variable is unset).
    pub fn new(
        gvm_root: Option<&str>,
        user_profile: Option<&str>,
        home: Option<&str>,
        versions_override: Option<&str>,
        cache_override: Option<&str>,
    ) -> (res: Result<Config, GvmError>)
        ensures
            match root_path_of(opt_view(gvm_root), opt_view(user_profile), opt_view(home)) {
                Some(root) => res matches Ok(c) && c.root_path@ == root
                    && c.versions_path@ == sub_path_of(root, opt_view(versions_override), "versions"@)
                    && c.cache_path@ == sub_path_of(root, opt_view(cache_override), "cache"@),
                None => res matches Err(GvmError::HomeDirUnknown),
            },
    {
        let root_path = match Self::resolve_root_path(gvm_root, user_profile, home) {
            Ok(r) => r,
            Err(e) => return Err(e),
        };
        let versions_path = Self::resolve_versions_path(root_path.as_str(), versions_override);
        let cache_path = Self::resolve_cache_path(root_path.as_str(), cache_override);
        Ok(Config { root_path, versions_path, cache_path })
    }

    /// The root directory: `GVM_ROOT_PATH`, else `.gvm` in the home directory.
    pub fn resolve_root_path(
        gvm_root: Option<&str>,
        user_profile: Option<&str>,
        home: Option<&str>,
    ) -> (res: Result<String, GvmError>)
        ensures
            match root_path_of(opt_view(gvm_root), opt_view(user_profile), opt_view(home)) {
                Some(root) => res matches Ok(r) && r@ == root,
                None => res matches Err(GvmError::HomeDirUnknown),
            },
    {
        match gvm_root {
            Some(r) => Ok(String::from_str(r)),
            None => match user_profile {
                Some(h) => Ok(join(h, ".gvm")),
                None => match home {
                    Some(h) => Ok(join(h, ".gvm")),
                    None => Err(GvmError::HomeDirUnknown),
                },
            },
        }
    }

    /// The versions directory: `GVM_VERSIONS_PATH`, else `versions` under the root.
    pub fn resolve_versions_path(root_path: &str, overridden: Option<&str>) -> (res: String)
        ensures
            res@ == sub_path_of(root_path@, opt_view(overridden), "versions"@),
    {
        match overridden {
            Some(p) => String::from_str(p),
            None => join(root_path, "versions"),
        }
    }

    /// The cache directory: `GVM_CACHE_PATH`, else `cache` under the root.
    pub fn resolve_cache_path(root_path: &str, overridden: Option<&str>) -> (res: String)
        ensures
            res@ == sub_path_of(root_path@, opt_view(overridden), "cache"@),
    {
        match overridden {
            Some(p) => String::from_str(p),
            None => join(root_path, "cache"),
        }
    }

    /// The versions path.
    pub fn versions(&self) -> (res: &String)
        ensures
            res == &self.versions_path,
    {
        &self.versions_path
    }

    /// The cache path.
    pub fn cache(&self) -> (res: &String)
        ensures
            res == &self.cache_path,
    {
        &self.cache_path
    }

    /// The directories to create, in order, with the context of the error
    /// if creating one fails: those of root, versions and cache that do not
    /// exist yet.
    pub fn ensure_directories(&self, root_exists: bool, versions_exists: bool, cache_exists: bool) -> (res: Vec<DirCreation>)
        ensures
            res@.map_values(|d: DirCreation| (d.path@, d.failure_context@)) == (if root_exists { Seq::empty() } else {
                seq![(self.root_path@, "Failed to create root directory "@ + self.root_path@)]
            }) + (if versions_exists { Seq::empty() } else {
                seq![(self.versions_path@, "Failed to create versions directory "@ + self.versions_path@)]
            }) + (if cache_exists { Seq::empty() } else {
                seq![(self.cache_path@, "Failed to create cache directory "@ + self.cache_path@)]
            }),
    {
        let mut v: Vec<DirCreation> = Vec::new();
        if !root_exists {
            let mut c = String::from_str("Failed to create root directory ");
            c.append(self.root_path.as_str());
            v.push(DirCreation { path: self.root_path.clone(), failure_context: c });
        }
        if !versions_exists {
            let mut c = String::from_str("Failed to create versions directory ");
            c.append(self.versions_path.as_str());
            v.push(DirCreation { path: self.versions_path.clone(), failure_context: c });
        }
        if !cache_exists {
            let mut c = String::from_str("Failed to create cache directory ");
            c.append(self.cache_path.as_str());
            v.push(DirCreation { path: self.cache_path.clone(), failure_context: c });
        }
        proof {
            let expect = (if root_exists { Seq::<(Seq<char>, Seq<char>)>::empty() } else {
                seq![(self.root_path@, "Failed to create root directory "@ + self.root_path@)]
            }) + (if versions_exists { Seq::<(Seq<char>, Seq<char>)>::empty() } else {
                seq![(self.versions_path@, "Failed to create versions directory "@ + self.versions_path@)]
            }) + (if cache_exists { Seq::<(Seq<char>, Seq<char>)>::empty() } else {
                seq![(self.cache_path@, "Failed to create cache directory "@ + self.cache_path@)]
            });
            assert(v@.map_values(|d: DirCreation| (d.path@, d.failure_context@)) =~= expect);
        }
        v
    }

    /// The configuration once its directories were created: `self` when
    /// every creation in `todo` (the list `ensure_directories` gave)
    /// succeeded, otherwise the first failure, with that directory's context
    /// and the error's text. `outcomes[i]` is the outcome of creating
    /// `todo[i]`; creating stops at the first failure, so later entries may
    /// be missing.
    pub fn prepared(self, todo: &Vec<DirCreation>, outcomes: &Vec<Result<(), String>>) -> (res: Result<Config, GvmError>)
        ensures
            match first_creation_failure(todo@, outcomes@) {
                Some((context, detail)) => res matches Err(GvmError::Failed { context: c, detail: d })
                    && c@ == context && d@ == detail,
                None => res matches Ok(cfg) && cfg.root_path@ == self.root_path@
                    && cfg.versions_path@ == self.versions_path@ && cfg.cache_path@ == self.cache_path@,
            },
    {
        let mut i: usize = 0;
        proof {
            assert(todo@.subrange(0, todo@.len() as int) =~= todo@);
            assert(outcomes@.subrange(0, outcomes@.len() as int) =~= outcomes@);
        }
        while i < todo.len() && i < outcomes.len()
            invariant
                i <= todo@.len(),
                i <= outcomes@.len(),
                first_creation_failure(todo@.subrange(i as int, todo@.len() as int), outcomes@.subrange(i as int, outcomes@.len() as int))
                    == first_creation_failure(todo@, outcomes@),
            decreases todo@.len() - i,
        {
            let rest_t = Ghost(todo@.subrange(i as int, todo@.len() as int));
            let rest_o = Ghost(outcomes@.subrange(i as int, outcomes@.len() as int));
            match &outcomes[i] {
                Err(detail) => {
                    return Err(GvmError::Failed { context: todo[i].failure_context.clone(), detail: detail.clone() });
                },
                Ok(()) => {
                    proof {
                        assert(rest_t@.drop_first() =~= todo@.subrange(i + 1, todo@.len() as int));
                        assert(rest_o@.drop_first() =~= outcomes@.subrange(i + 1, outcomes@.len() as int));
                    }
                },
            }
            i = i + 1;
        }
        Ok(self)
    }
}

} // verus!
