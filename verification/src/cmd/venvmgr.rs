//! The descriptor of an environment and the operations that start from it.

use crate::cfg::settings::{tilde_expansion, Settings};
use crate::cmd::activate::{activate_start, ActivateFlow};
use crate::cmd::create::{create_start, CreateFlow};
use crate::cmd::delete::{delete_start, DeleteFlow};
use crate::cmd::registry::{listed, listing, listing_lines, DirEntry, Listing};
use crate::cmd::utils::{get_parent_shell, parent_shell};
use crate::platform::{venv_dir, Platform};
use crate::text::{clone_strings, lemma_texts_push, texts};
use vstd::prelude::*;

verus! {

/// Whether `name` can be the name of an environment: one path component
/// that is not empty, holds no path separator and no NUL, and is neither `.`
/// nor `..`. Such a name, put under the root, names a directory directly
/// under it and nothing else.
pub open spec fn valid_name(name: Seq<char>) -> bool {
    &&& name.len() > 0
    &&& forall|i: int| 0 <= i < name.len() ==> !is_separator(#[trigger] name[i])
    &&& name != seq!['.']
    &&& name != seq!['.', '.']
}

/// Whether `c` cannot stand inside a path component.
pub open spec fn is_separator(c: char) -> bool {
    c == '/' || c == '\\' || c == '\0'
}

/// The directory of an environment with a valid name lies directly under
/// the root: it is the root, one `/`, and the name as its only further
/// component. So no operation on it reaches the root itself, a directory
/// beside the root, or anything deeper inside another environment.
pub proof fn lemma_environment_is_direct_child(root: Seq<char>, name: Seq<char>)
    requires
        valid_name(name),
    ensures
        venv_dir(root, name).len() == root.len() + 1 + name.len(),
        venv_dir(root, name).take(root.len() as int) == root,
        venv_dir(root, name)[root.len() as int] == '/',
        venv_dir(root, name).skip(root.len() + 1 as int) == name,
        forall|i: int|
            root.len() < i < venv_dir(root, name).len() ==> !is_separator(
                #[trigger] venv_dir(root, name)[i],
            ),
{
    reveal_strlit("/");
    let dir = venv_dir(root, name);
    assert(dir.take(root.len() as int) =~= root);
    assert(dir.skip(root.len() + 1 as int) =~= name);
    assert forall|i: int| root.len() < i < dir.len() implies !is_separator(#[trigger] dir[i]) by {
        assert(dir[i] == name[i - root.len() - 1]);
    }
}

/// The packages that go into a new environment: the requested ones,
/// followed by the configured defaults where the environment asks for them.
pub open spec fn effective(
    requested: Seq<Seq<char>>,
    defaults: Seq<Seq<char>>,
    use_defaults: bool,
) -> Seq<Seq<char>> {
    if use_defaults {
        requested + defaults
    } else {
        requested
    }
}

/// Computes the packages that go into a new environment.
pub fn effective_packages(requested: &Vec<String>, defaults: &Vec<String>, use_defaults: bool) -> (all:
    Vec<String>)
    ensures
        texts(all@) == effective(texts(requested@), texts(defaults@), use_defaults),
{
    let mut all = clone_strings(requested);
    if use_defaults {
        let mut i: usize = 0;
        while i < defaults.len()
            invariant
                i <= defaults.len(),
                texts(all@) == texts(requested@) + texts(defaults@).take(i as int),
            decreases defaults.len() - i,
        {
            proof {
                lemma_texts_push(all@, defaults@[i as int]);
                assert(texts(defaults@).take(i + 1) =~= texts(defaults@).take(i as int).push(
                    defaults@[i as int]@,
                ));
            }
            all.push(defaults[i].clone());
            i += 1;
        }
        assert(texts(defaults@).take(defaults.len() as int) =~= texts(defaults@));
    }
    all
}

/// Whether `name` can be the name of an environment.
pub fn is_valid_name(name: &str) -> (valid: bool)
    ensures
        valid == valid_name(name@),
{
    let len: usize = name.unicode_len();
    if len == 0 {
        return false;
    }
    let mut i: usize = 0;
    while i < len
        invariant
            i <= len,
            len == name@.len(),
            forall|k: int| 0 <= k < i ==> !is_separator(#[trigger] name@[k]),
        decreases len - i,
    {
        let c = name.get_char(i);
        if c == '/' || c == '\\' || c == '\0' {
            return false;
        }
        i += 1;
    }
    if len == 1 && name.get_char(0) == '.' {
        assert(name@ =~= seq!['.']);
        return false;
    }
    if len == 2 && name.get_char(0) == '.' && name.get_char(1) == '.' {
        assert(name@ =~= seq!['.', '.']);
        return false;
    }
    assert(name@ != seq!['.']) by {
        if name@ == seq!['.'] {
            assert(seq!['.'].len() == 1);
            assert(seq!['.'][0] == '.');
        }
    }
    assert(name@ != seq!['.', '.']) by {
        if name@ == seq!['.', '.'] {
            assert(seq!['.', '.'].len() == 2);
            assert(seq!['.', '.'][0] == '.');
            assert(seq!['.', '.'][1] == '.');
        }
    }
    true
}

/// An environment to work on: its name, the Python version it is made for,
/// the packages asked for, and whether the configured default packages are
/// wanted too.
#[derive(Debug, PartialEq, Eq)]
pub struct Venv {
    name: String,
    python_version: String,
    packages: Vec<String>,
    use_defaults: bool,
}

/// The mathematical value of a [`Venv`].
pub struct VenvView {
    pub name: Seq<char>,
    pub python_version: Seq<char>,
    pub packages: Seq<Seq<char>>,
    pub use_defaults: bool,
}

impl View for Venv {
    type V = VenvView;

    closed spec fn view(&self) -> VenvView {
        VenvView {
            name: self.name@,
            python_version: self.python_version@,
            packages: texts(self.packages@),
            use_defaults: self.use_defaults,
        }
    }
}

impl Venv {
    #[verifier::type_invariant]
    spec fn well_formed(self) -> bool {
        valid_name(self.name@)
    }

    /// Describes an environment.
    pub fn new(name: String, python_version: String, packages: Vec<String>, default: bool) -> (venv:
        Venv)
        requires
            valid_name(name@),
        ensures
            venv@ == (VenvView {
                name: name@,
                python_version: python_version@,
                packages: texts(packages@),
                use_defaults: default,
            }),
    {
        Venv { name, python_version, packages, use_defaults: default }
    }

    /// The name of the environment, which is always a valid one.
    pub fn name(&self) -> (name: &str)
        ensures
            name@ == self@.name,
            valid_name(name@),
    {
        proof {
            use_type_invariant(self);
        }
        self.name.as_str()
    }

    /// The Python version the environment is made for.
    pub fn python_version(&self) -> (version: &str)
        ensures
            version@ == self@.python_version,
    {
        self.python_version.as_str()
    }

    /// The packages asked for.
    pub fn packages(&self) -> (packages: &Vec<String>)
        ensures
            texts(packages@) == self@.packages,
    {
        &self.packages
    }

    /// Whether the configured default packages are wanted too.
    pub fn uses_defaults(&self) -> (wanted: bool)
        ensures
            wanted == self@.use_defaults,
    {
        self.use_defaults
    }

    /// Begins the creation of this environment under the configured root,
    /// with a leading `~` of the root expanded. The flow is that of
    /// [`CreateFlow::new`] for the expanded root.
    pub fn create(&self, settings: &Settings, platform: Platform) -> (flow: CreateFlow)
        ensures
            valid_name(flow@.name),
            tilde_expansion(settings@.venvs_path, flow@.root),
            flow@ == create_start(self@, flow@.root, settings@.default_pkgs, platform),
    {
        CreateFlow::new(self, settings.venvs_dir(), &settings.default_pkgs, platform)
    }

    /// Begins the deletion of this environment under the configured root,
    /// with a leading `~` of the root expanded. The flow is that of
    /// [`DeleteFlow::new`] for the expanded root.
    pub fn delete(&self, settings: &Settings) -> (flow: DeleteFlow)
        ensures
            valid_name(flow@.name),
            tilde_expansion(settings@.venvs_path, flow@.root),
            flow@ == delete_start(self@, flow@.root),
    {
        DeleteFlow::new(self, settings.venvs_dir())
    }

    /// Lists the environments from what was read of the root: `None` stands
    /// for a root that could not be read, which gives no names and is no
    /// error. The listing is verbose unless `print` says otherwise.
    pub fn list(print: Option<bool>, read: &Option<Vec<DirEntry>>) -> (listing: Listing)
        ensures
            texts(listing.names@) == listed(read.deep_view()),
            read is None ==> listing.names@.len() == 0,
            listing.notices.deep_view() == if print != Some(false) {
                listing_lines(read.deep_view())
            } else {
                Seq::empty()
            },
    {
        let verbose = match print {
            Some(verbose) => verbose,
            None => true,
        };
        let listing = listing(verbose, read);
        assert(texts(listing.names@).len() == listing.names@.len());
        listing
    }

    /// Begins the activation of this environment under the configured root,
    /// with a leading `~` of the root expanded, for the shell that the user
    /// works in: PowerShell on Windows, elsewhere the one that the
    /// environment names in `SHELL`, handed in as `shell_env`. Where `SHELL`
    /// is not set, the flow still finds out whether the environment is there,
    /// and only then misses the shell. The flow is that of
    /// [`ActivateFlow::new`] for the expanded root.
    pub fn activate(&self, settings: &Settings, platform: Platform, shell_env: Option<String>) -> (flow:
        ActivateFlow)
        ensures
            valid_name(flow@.name),
            tilde_expansion(settings@.venvs_path, flow@.root),
            flow@ == activate_start(
                self@,
                flow@.root,
                platform,
                parent_shell(platform, shell_env.deep_view()),
            ),
    {
        let shell = get_parent_shell(platform, shell_env);
        ActivateFlow::new(self, settings.venvs_dir(), platform, shell)
    }
}

} // verus!
