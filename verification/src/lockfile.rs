//! The lockfile model: the resolved install graph of packages, modules and
//! named commands, with the path helpers that re-anchor recorded paths at
//! the directory the lockfile was loaded from. A lockfile is produced by an
//! external resolution step and parsed outside the library; the engine only
//! reads it.

use vstd::prelude::*;
use crate::paths::{canonicalize_relative_path, join_path};

verus! {

/// A named command the lockfile installed: which package and version owns
/// it, which module runs it, and the arguments it is always given.
#[derive(Debug, PartialEq)]
pub struct LockfileCommand {
    pub name: String,
    pub package_name: String,
    pub package_version: String,
    pub module: String,
    pub main_args: Option<String>,
}

pub ghost struct LockfileCommandView {
    pub name: Seq<char>,
    pub package_name: Seq<char>,
    pub package_version: Seq<char>,
    pub module: Seq<char>,
    pub main_args: Option<Seq<char>>,
}

impl View for LockfileCommand {
    type V = LockfileCommandView;

    open spec fn view(&self) -> LockfileCommandView {
        LockfileCommandView {
            name: self.name@,
            package_name: self.package_name@,
            package_version: self.package_version@,
            module: self.module@,
            main_args: match self.main_args {
                Some(ref a) => Some(a@),
                None => None,
            },
        }
    }
}

/// An installed module: its identity, its source path and its package's
/// root directory (both recorded relative to the lockfile's directory), and
/// the content-addressed key of its locked source.
#[derive(Debug, PartialEq)]
pub struct LockfileModule {
    pub name: String,
    pub package_name: String,
    pub package_version: String,
    pub source: String,
    pub package_root: String,
    pub prehashed_module_key: String,
}

pub ghost struct LockfileModuleView {
    pub name: Seq<char>,
    pub package_name: Seq<char>,
    pub package_version: Seq<char>,
    pub source: Seq<char>,
    pub package_root: Seq<char>,
    pub prehashed_module_key: Seq<char>,
}

impl View for LockfileModule {
    type V = LockfileModuleView;

    open spec fn view(&self) -> LockfileModuleView {
        LockfileModuleView {
            name: self.name@,
            package_name: self.package_name@,
            package_version: self.package_version@,
            source: self.source@,
            package_root: self.package_root@,
            prehashed_module_key: self.prehashed_module_key@,
        }
    }
}

impl LockfileModule {
    /// The module's source file, re-anchored at the directory the lockfile
    /// was loaded from.
    pub fn get_canonical_source_path_from_lockfile_dir(&self, directory: &str) -> (r: String)
        ensures
            r@ == join_path(directory@, self@.source),
    {
        canonicalize_relative_path(directory, self.source.as_str())
    }

    /// The module's package root (the command's working-directory context),
    /// re-anchored at the directory the lockfile was loaded from.
    pub fn get_canonical_manifest_path_from_lockfile_dir(&self, directory: &str) -> (r: String)
        ensures
            r@ == join_path(directory@, self@.package_root),
    {
        canonicalize_relative_path(directory, self.package_root.as_str())
    }
}

/// Why a lockfile lookup failed: the command is simply not there, or a
/// command entry references a module entry that does not exist (a stale or
/// corrupted lockfile).
#[derive(Debug, PartialEq)]
pub enum LockfileError {
    CommandNotFound(String),
    ModuleNotFound { package_name: String, package_version: String, module_name: String },
}

pub ghost enum LockfileErrorView {
    CommandNotFound(Seq<char>),
    ModuleNotFound { package_name: Seq<char>, package_version: Seq<char>, module_name: Seq<char> },
}

impl View for LockfileError {
    type V = LockfileErrorView;

    open spec fn view(&self) -> LockfileErrorView {
        match self {
            LockfileError::CommandNotFound(c) => LockfileErrorView::CommandNotFound(c@),
            LockfileError::ModuleNotFound { package_name, package_version, module_name } => {
                LockfileErrorView::ModuleNotFound {
                    package_name: package_name@,
                    package_version: package_version@,
                    module_name: module_name@,
                }
            },
        }
    }
}

/// The lockfile: every installed module and every named command.
#[derive(Debug, PartialEq)]
pub struct Lockfile {
    pub modules: Vec<LockfileModule>,
    pub commands: Vec<LockfileCommand>,
}

pub ghost struct LockfileView {
    pub modules: Seq<LockfileModuleView>,
    pub commands: Seq<LockfileCommandView>,
}

impl View for Lockfile {
    type V = LockfileView;

    open spec fn view(&self) -> LockfileView {
        LockfileView {
            modules: Seq::new(self.modules@.len(), |i: int| self.modules@[i]@),
            commands: Seq::new(self.commands@.len(), |i: int| self.commands@[i]@),
        }
    }
}

/// The first command entry with the given name, if any.
pub open spec fn find_command(commands: Seq<LockfileCommandView>, name: Seq<char>) -> Option<
    LockfileCommandView,
>
    decreases commands.len(),
{
    if commands.len() == 0 {
        None
    } else if commands[0].name == name {
        Some(commands[0])
    } else {
        find_command(commands.drop_first(), name)
    }
}

/// The first module entry with the given package name, package version and
/// module name, if any.
pub open spec fn find_lock_module(
    modules: Seq<LockfileModuleView>,
    package_name: Seq<char>,
    package_version: Seq<char>,
    module_name: Seq<char>,
) -> Option<LockfileModuleView>
    decreases modules.len(),
{
    if modules.len() == 0 {
        None
    } else if modules[0].package_name == package_name && modules[0].package_version
        == package_version && modules[0].name == module_name {
        Some(modules[0])
    } else {
        find_lock_module(modules.drop_first(), package_name, package_version, module_name)
    }
}

proof fn lemma_find_command_step(commands: Seq<LockfileCommandView>, name: Seq<char>, i: int)
    requires
        0 <= i < commands.len(),
        commands[i].name != name,
    ensures
        find_command(commands.skip(i), name) == find_command(commands.skip(i + 1), name),
{
    assert(commands.skip(i).drop_first() =~= commands.skip(i + 1));
}

proof fn lemma_find_lock_module_step(
    modules: Seq<LockfileModuleView>,
    package_name: Seq<char>,
    package_version: Seq<char>,
    module_name: Seq<char>,
    i: int,
)
    requires
        0 <= i < modules.len(),
        !(modules[i].package_name == package_name && modules[i].package_version == package_version
            && modules[i].name == module_name),
    ensures
        find_lock_module(modules.skip(i), package_name, package_version, module_name)
            == find_lock_module(modules.skip(i + 1), package_name, package_version, module_name),
{
    assert(modules.skip(i).drop_first() =~= modules.skip(i + 1));
}

impl Lockfile {
    /// Look a command up by name; absence is the recoverable
    /// `CommandNotFound`, never a hard error.
    pub fn get_command(&self, command_name: &str) -> (r: Result<&LockfileCommand, LockfileError>)
        ensures
            match r {
                Ok(c) => find_command(self@.commands, command_name@) == Some(c@),
                Err(e) => find_command(self@.commands, command_name@) is None && e@
                    == LockfileErrorView::CommandNotFound(command_name@),
            },
    {
        let n: usize = self.commands.len();
        let mut i: usize = 0;
        proof {
            assert(self@.commands.skip(0) =~= self@.commands);
        }
        while i < n
            invariant
                i <= n == self.commands.len(),
                self@.commands.len() == self.commands.len(),
                forall|j: int|
                    0 <= j < self.commands.len() ==> self@.commands[j] == self.commands[j]@,
                find_command(self@.commands, command_name@) == find_command(
                    self@.commands.skip(i as int),
                    command_name@,
                ),
            decreases n - i,
        {
            if crate::strutil::str_eq(self.commands[i].name.as_str(), command_name) {
                proof {
                    assert(self@.commands.skip(i as int)[0] == self@.commands[i as int]);
                }
                return Ok(&self.commands[i]);
            }
            proof {
                lemma_find_command_step(self@.commands, command_name@, i as int);
            }
            i = i + 1;
        }
        proof {
            assert(self@.commands.skip(n as int) =~= Seq::<LockfileCommandView>::empty());
        }
        Err(LockfileError::CommandNotFound(command_name.to_owned()))
    }

    /// Look a module up by the identity a command entry records for it.
    /// Absence here means the lockfile is stale or corrupted.
    pub fn get_module(
        &self,
        package_name: &str,
        package_version: &str,
        module_name: &str,
    ) -> (r: Result<&LockfileModule, LockfileError>)
        ensures
            match r {
                Ok(m) => find_lock_module(
                    self@.modules,
                    package_name@,
                    package_version@,
                    module_name@,
                ) == Some(m@),
                Err(e) => find_lock_module(
                    self@.modules,
                    package_name@,
                    package_version@,
                    module_name@,
                ) is None && e@ == (LockfileErrorView::ModuleNotFound {
                    package_name: package_name@,
                    package_version: package_version@,
                    module_name: module_name@,
                }),
            },
    {
        let n: usize = self.modules.len();
        let mut i: usize = 0;
        proof {
            assert(self@.modules.skip(0) =~= self@.modules);
        }
        while i < n
            invariant
                i <= n == self.modules.len(),
                self@.modules.len() == self.modules.len(),
                forall|j: int| 0 <= j < self.modules.len() ==> self@.modules[j] == self.modules[j]@,
                find_lock_module(self@.modules, package_name@, package_version@, module_name@)
                    == find_lock_module(
                    self@.modules.skip(i as int),
                    package_name@,
                    package_version@,
                    module_name@,
                ),
            decreases n - i,
        {
            let m = &self.modules[i];
            if crate::strutil::str_eq(m.package_name.as_str(), package_name)
                && crate::strutil::str_eq(m.package_version.as_str(), package_version)
                && crate::strutil::str_eq(m.name.as_str(), module_name) {
                proof {
                    assert(self@.modules.skip(i as int)[0] == self@.modules[i as int]);
                }
                return Ok(&self.modules[i]);
            }
            proof {
                lemma_find_lock_module_step(
                    self@.modules,
                    package_name@,
                    package_version@,
                    module_name@,
                    i as int,
                );
            }
            i = i + 1;
        }
        proof {
            assert(self@.modules.skip(n as int) =~= Seq::<LockfileModuleView>::empty());
        }
        Err(
            LockfileError::ModuleNotFound {
                package_name: package_name.to_owned(),
                package_version: package_version.to_owned(),
                module_name: module_name.to_owned(),
            },
        )
    }

    /// The content-addressed cache key recorded for the module a command
    /// entry references, if that module exists.
    pub fn get_prehashed_cache_key_from_command(&self, command: &LockfileCommand) -> (r: Option<
        String,
    >)
        ensures
            match find_lock_module(
                self@.modules,
                command@.package_name,
                command@.package_version,
                command@.module,
            ) {
                Some(m) => r matches Some(k) && k@ == m.prehashed_module_key,
                None => r is None,
            },
    {
        match self.get_module(
            command.package_name.as_str(),
            command.package_version.as_str(),
            command.module.as_str(),
        ) {
            Ok(m) => Some(m.prehashed_module_key.clone()),
            Err(_) => None,
        }
    }
}

/// What looking for a lockfile in a directory produced: one was found and
/// parsed, none was there, or one was there but could not be read or
/// parsed. The error text is the loader's own message.
#[derive(Debug, PartialEq)]
pub enum LockfileResult {
    Lockfile(Lockfile),
    NoLockfile,
    LockfileError(String),
}

pub ghost enum LockfileResultView {
    Lockfile(LockfileView),
    NoLockfile,
    LockfileError(Seq<char>),
}

impl View for LockfileResult {
    type V = LockfileResultView;

    open spec fn view(&self) -> LockfileResultView {
        match self {
            LockfileResult::Lockfile(l) => LockfileResultView::Lockfile(l@),
            LockfileResult::NoLockfile => LockfileResultView::NoLockfile,
            LockfileResult::LockfileError(e) => LockfileResultView::LockfileError(e@),
        }
    }
}

} // verus!
