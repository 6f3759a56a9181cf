//! The language registry: for each enabled language, its sandbox image, its
//! resource ceilings and its queue. Built once, validated, then only read.
use vstd::prelude::*;
use vstd::string::*;
use crate::keys::{queue_key, queue_name};
use crate::types::Language;

verus! {

/// How one language is run.
#[derive(Clone, Debug)]
pub struct LanguageEntry {
    pub language: Language,
    pub image: String,
    pub memory_limit_mb: u32,
    /// CPU ceiling in thousandths of a CPU.
    pub cpu_millis: u32,
    pub queue_name: String,
}

#[derive(Clone, Copy, Debug, PartialEq, Eq, Structural)]
pub enum RegistryError {
    /// The language has no entry.
    UnknownLanguage,
    /// Two entries name the same language.
    DuplicateLanguage,
    /// An entry's queue is not the canonical queue of its language.
    QueueMismatch,
}

pub open spec fn languages_distinct(entries: Seq<LanguageEntry>) -> bool {
    forall|a: int, b: int| 0 <= a < b < entries.len() ==> entries[a].language != entries[b].language
}

pub open spec fn queues_canonical(entries: Seq<LanguageEntry>) -> bool {
    forall|k: int| 0 <= k < entries.len() ==> (#[trigger] entries[k]).queue_name@ == queue_key(
        entries[k].language,
    )
}

pub open spec fn is_enabled(entries: Seq<LanguageEntry>, language: Language) -> bool {
    exists|k: int| 0 <= k < entries.len() && entries[k].language == language
}

/// The entry of `language`.
pub open spec fn entry_of(entries: Seq<LanguageEntry>, language: Language) -> LanguageEntry {
    entries[choose|k: int| 0 <= k < entries.len() && entries[k].language == language]
}

/// A registry whose languages are distinct and whose queues are canonical.
pub struct LanguageRegistry {
    entries: Vec<LanguageEntry>,
}

impl LanguageRegistry {
    pub closed spec fn entries(&self) -> Seq<LanguageEntry> {
        self.entries@
    }

    pub open spec fn wf(&self) -> bool {
        languages_distinct(self.entries()) && queues_canonical(self.entries())
    }

    /// Checks the entries: every queue must be its language's canonical queue,
    /// and no language may appear twice.
    pub fn new(entries: Vec<LanguageEntry>) -> (r: Result<LanguageRegistry, RegistryError>)
        ensures
            !queues_canonical(entries@) ==> r == Err::<LanguageRegistry, _>(
                RegistryError::QueueMismatch,
            ),
            queues_canonical(entries@) && !languages_distinct(entries@) ==> r == Err::<
                LanguageRegistry,
                _,
            >(RegistryError::DuplicateLanguage),
            queues_canonical(entries@) && languages_distinct(entries@) ==> (r matches Ok(reg) && reg.entries()
                == entries@ && reg.wf()),
    {
        for k in 0..entries.len()
            invariant
                forall|j: int| 0 <= j < k ==> (#[trigger] entries@[j]).queue_name@ == queue_key(
                    entries@[j].language,
                ),
        {
            let expected = queue_name(&entries[k].language);
            if entries[k].queue_name != expected {
                return Err(RegistryError::QueueMismatch);
            }
        }
        for b in 0..entries.len()
            invariant
                queues_canonical(entries@),
                forall|x: int, y: int|
                    0 <= x < y < b ==> entries@[x].language != entries@[y].language,
        {
            for a in 0..b
                invariant
                    b < entries.len(),
                    queues_canonical(entries@),
                    forall|x: int, y: int|
                        0 <= x < y < b ==> entries@[x].language != entries@[y].language,
                    forall|x: int| 0 <= x < a ==> entries@[x].language != entries@[b as int].language,
            {
                if entries[a].language == entries[b].language {
                    return Err(RegistryError::DuplicateLanguage);
                }
            }
        }
        Ok(LanguageRegistry { entries })
    }

    /// The entry of a language; fails with `UnknownLanguage` when it has none.
    pub fn get_config(&self, language: &Language) -> (r: Result<&LanguageEntry, RegistryError>)
        requires
            self.wf(),
        ensures
            is_enabled(self.entries(), *language) ==> (r matches Ok(e) && *e == entry_of(
                self.entries(),
                *language,
            )),
            !is_enabled(self.entries(), *language) ==> r matches Err(
                RegistryError::UnknownLanguage,
            ),
    {
        let mut k: usize = 0;
        while k < self.entries.len()
            invariant
                k <= self.entries@.len(),
                self.wf(),
                forall|j: int| 0 <= j < k ==> self.entries@[j].language != *language,
            decreases self.entries@.len() - k,
        {
            if self.entries[k].language == *language {
                proof {
                    let c = choose|i: int|
                        0 <= i < self.entries@.len() && self.entries@[i].language == *language;
                    assert(c == k);
                }
                return Ok(&self.entries[k]);
            }
            k = k + 1;
        }
        Err(RegistryError::UnknownLanguage)
    }

    /// The sandbox image of a language.
    pub fn get_image(&self, language: &Language) -> (r: Result<String, RegistryError>)
        requires
            self.wf(),
        ensures
            is_enabled(self.entries(), *language) ==> (r matches Ok(s) && s@ == entry_of(
                self.entries(),
                *language,
            ).image@),
            !is_enabled(self.entries(), *language) ==> r matches Err(
                RegistryError::UnknownLanguage,
            ),
    {
        match self.get_config(language) {
            Ok(e) => Ok(e.image.clone()),
            Err(err) => Err(err),
        }
    }

    /// The main queue of a language.
    pub fn get_queue_name(&self, language: &Language) -> (r: Result<String, RegistryError>)
        requires
            self.wf(),
        ensures
            is_enabled(self.entries(), *language) ==> (r matches Ok(s) && s@ == queue_key(*language)),
            !is_enabled(self.entries(), *language) ==> r matches Err(
                RegistryError::UnknownLanguage,
            ),
    {
        match self.get_config(language) {
            Ok(e) => {
                proof {
                    let c = choose|i: int|
                        0 <= i < self.entries@.len() && self.entries@[i].language == *language;
                    assert(self.entries@[c].queue_name@ == queue_key(self.entries@[c].language));
                }
                Ok(e.queue_name.clone())
            },
            Err(err) => Err(err),
        }
    }

    /// The memory ceiling of a language, in MiB.
    pub fn get_memory_limit_mb(&self, language: &Language) -> (r: Result<u32, RegistryError>)
        requires
            self.wf(),
        ensures
            is_enabled(self.entries(), *language) ==> r == Ok::<u32, RegistryError>(
                entry_of(self.entries(), *language).memory_limit_mb,
            ),
            !is_enabled(self.entries(), *language) ==> r == Err::<u32, RegistryError>(
                RegistryError::UnknownLanguage,
            ),
    {
        match self.get_config(language) {
            Ok(e) => Ok(e.memory_limit_mb),
            Err(err) => Err(err),
        }
    }

    /// The CPU ceiling of a language, in thousandths of a CPU.
    pub fn get_cpu_millis(&self, language: &Language) -> (r: Result<u32, RegistryError>)
        requires
            self.wf(),
        ensures
            is_enabled(self.entries(), *language) ==> r == Ok::<u32, RegistryError>(
                entry_of(self.entries(), *language).cpu_millis,
            ),
            !is_enabled(self.entries(), *language) ==> r == Err::<u32, RegistryError>(
                RegistryError::UnknownLanguage,
            ),
    {
        match self.get_config(language) {
            Ok(e) => Ok(e.cpu_millis),
            Err(err) => Err(err),
        }
    }

    /// The enabled languages, in the order of their entries.
    pub fn enabled_languages(&self) -> (r: Vec<Language>)
        ensures
            r@ == self.entries().map_values(|e: LanguageEntry| e.language),
    {
        let mut v: Vec<Language> = Vec::new();
        for k in 0..self.entries.len()
            invariant
                v@ == self.entries@.take(k as int).map_values(|e: LanguageEntry| e.language),
        {
            v.push(self.entries[k].language);
            assert(self.entries@.take(k + 1).map_values(|e: LanguageEntry| e.language) =~= v@);
        }
        assert(self.entries@.take(self.entries@.len() as int) =~= self.entries@);
        v
    }
}

} // verus!
