use vstd::prelude::*;
use crate::git::{GitOptions, string_views};
use crate::mapping::KeyValues;

verus! {

/// Free-form settings that refine the language setup, such as a version.
pub struct LanguageOptions {
    settings: KeyValues,
}

impl View for LanguageOptions {
    type V = Map<Seq<char>, Seq<char>>;

    closed spec fn view(&self) -> Map<Seq<char>, Seq<char>> {
        self.settings@
    }
}

impl LanguageOptions {
    /// Each key is held once.
    pub closed spec fn wf(&self) -> bool {
        self.settings.wf()
    }

    /// No settings.
    pub fn new() -> (o: LanguageOptions)
        ensures
            o.wf(),
            o@ == Map::<Seq<char>, Seq<char>>::empty(),
    {
        LanguageOptions { settings: KeyValues::new() }
    }

    /// Sets `key` to `value`, replacing an earlier value.
    pub fn insert(&mut self, key: String, value: String)
        requires
            old(self).wf(),
        ensures
            final(self).wf(),
            final(self)@ == old(self)@.insert(key@, value@),
    {
        self.settings.insert(key, value);
    }

    /// The keys, in the order they were first set.
    pub fn keys(&self) -> (r: Vec<String>)
        requires
            self.wf(),
        ensures
            forall|i: int| 0 <= i < r.len() ==> self@.contains_key(#[trigger] r[i]@),
            forall|k: Seq<char>|
                #[trigger] self@.contains_key(k) ==> exists|i: int| 0 <= i < r.len() && r[i]@ == k,
    {
        self.settings.keys()
    }

    /// The value of `key`, if set.
    pub fn get(&self, key: &String) -> (r: Option<&String>)
        requires
            self.wf(),
        ensures
            match r {
                Some(v) => self@.contains_key(key@) && self@[key@] == v@,
                None => !self@.contains_key(key@),
            },
    {
        self.settings.get(key)
    }
}

/// A parsed setup configuration. Nothing in this crate changes it.
pub struct EnvSetupConfig {
    /// The tag of the language to set up, such as `rust` or `python`.
    pub language: String,
    pub language_options: Option<LanguageOptions>,
    /// Where to clone from and what to check out.
    pub git: GitOptions,
    /// Shell commands run last, in this order.
    pub setup_cmds: Option<Vec<String>>,
    /// The container engine the project needs, if any.
    pub container_system: Option<String>,
}

impl EnvSetupConfig {
    /// Each of its mappings holds every key once.
    pub open spec fn wf(&self) -> bool {
        &&& self.git.wf()
        &&& match self.language_options {
            Some(o) => o.wf(),
            None => true,
        }
    }

    /// The setup commands, none when the list is absent.
    pub open spec fn setup_plan(&self) -> Seq<Seq<char>> {
        match self.setup_cmds {
            Some(v) => string_views(v@),
            None => Seq::empty(),
        }
    }
}

} // verus!
