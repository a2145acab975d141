//! The manifest model: a project's declared package and its modules.
//! A manifest is parsed outside the library and handed in as plain values;
//! the resolution engine only reads it.

use vstd::prelude::*;

verus! {

/// A module the project declares: a name and a source path recorded
/// relative to the manifest's own directory.
#[derive(Debug, PartialEq)]
pub struct ManifestModule {
    pub name: String,
    pub source: String,
}

pub ghost struct ManifestModuleView {
    pub name: Seq<char>,
    pub source: Seq<char>,
}

impl View for ManifestModule {
    type V = ManifestModuleView;

    open spec fn view(&self) -> ManifestModuleView {
        ManifestModuleView { name: self.name@, source: self.source@ }
    }
}

/// A project's manifest: its own package name, the absolute path of the
/// directory the manifest lives in, and the declared modules in order.
#[derive(Debug, PartialEq)]
pub struct Manifest {
    pub package_name: String,
    pub base_directory_path: String,
    pub modules: Vec<ManifestModule>,
}

pub ghost struct ManifestView {
    pub package_name: Seq<char>,
    pub base_directory_path: Seq<char>,
    pub modules: Seq<ManifestModuleView>,
}

impl View for Manifest {
    type V = ManifestView;

    open spec fn view(&self) -> ManifestView {
        ManifestView {
            package_name: self.package_name@,
            base_directory_path: self.base_directory_path@,
            modules: Seq::new(self.modules@.len(), |i: int| self.modules@[i]@),
        }
    }
}

/// The first declared module with the given name, if any.
pub open spec fn find_module(modules: Seq<ManifestModuleView>, name: Seq<char>) -> Option<
    ManifestModuleView,
>
    decreases modules.len(),
{
    if modules.len() == 0 {
        None
    } else if modules[0].name == name {
        Some(modules[0])
    } else {
        find_module(modules.drop_first(), name)
    }
}

proof fn lemma_find_module_step(modules: Seq<ManifestModuleView>, name: Seq<char>, i: int)
    requires
        0 <= i < modules.len(),
        modules[i].name != name,
    ensures
        find_module(modules.skip(i), name) == find_module(modules.skip(i + 1), name),
{
    assert(modules.skip(i).drop_first() =~= modules.skip(i + 1));
}

impl Manifest {
    /// Look a declared module up by name; the first declaration wins.
    pub fn get_module(&self, name: &str) -> (r: Option<&ManifestModule>)
        ensures
            match r {
                Some(m) => find_module(self@.modules, name@) == Some(m@),
                None => find_module(self@.modules, name@) is None,
            },
    {
        let n: usize = self.modules.len();
        let mut i: usize = 0;
        proof {
            assert(self@.modules.skip(0) =~= self@.modules);
        }
        while i < n
            invariant
                i <= n == self.modules.len(),
                self@.modules.len() == self.modules.len(),
                forall|j: int| 0 <= j < self.modules.len() ==> self@.modules[j] == self.modules[j]@,
                find_module(self@.modules, name@) == find_module(self@.modules.skip(i as int), name@),
            decreases n - i,
        {
            if crate::strutil::str_eq(self.modules[i].name.as_str(), name) {
                proof {
                    assert(self@.modules.skip(i as int)[0] == self@.modules[i as int]);
                }
                return Some(&self.modules[i]);
            }
            proof {
                lemma_find_module_step(self@.modules, name@, i as int);
            }
            i = i + 1;
        }
        proof {
            assert(self@.modules.skip(n as int) =~= Seq::<ManifestModuleView>::empty());
        }
        None
    }
}

/// What looking for a manifest in a directory produced: one was found and
/// parsed, none was there, or one was there but could not be read or
/// parsed. The error text is the loader's own message.
#[derive(Debug, PartialEq)]
pub enum ManifestResult {
    Manifest(Manifest),
    NoManifest,
    ManifestError(String),
}

pub ghost enum ManifestResultView {
    Manifest(ManifestView),
    NoManifest,
    ManifestError(Seq<char>),
}

impl View for ManifestResult {
    type V = ManifestResultView;

    open spec fn view(&self) -> ManifestResultView {
        match self {
            ManifestResult::Manifest(m) => ManifestResultView::Manifest(m@),
            ManifestResult::NoManifest => ManifestResultView::NoManifest,
            ManifestResult::ManifestError(e) => ManifestResultView::ManifestError(e@),
        }
    }
}

} // verus!
