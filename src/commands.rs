//! The language catalogue that the command-line tool maintains: adding and
//! removing a language's entry, and the resources derived for its workers.
//! Reading and writing the catalogue file, and building images, are the tool's.
use vstd::prelude::*;
use vstd::string::*;
use crate::text::{chars_of, concat, decimal, decimal_text};

verus! {

#[derive(Clone, Debug)]
pub struct LanguageExecution {
    pub command: String,
    pub args: Vec<String>,
    pub file_extension: String,
}

#[derive(Clone, Debug)]
pub struct ResourceRequests {
    pub memory: String,
    pub cpu: String,
}

#[derive(Clone, Debug)]
pub struct ResourceLimits {
    pub memory: String,
    pub cpu: String,
}

#[derive(Clone, Debug)]
pub struct Resources {
    pub requests: ResourceRequests,
    pub limits: ResourceLimits,
}

#[derive(Clone, Copy, Debug, PartialEq, Eq, Structural)]
pub struct Concurrency {
    pub max_parallel_jobs: u32,
    pub max_parallel_tests: u32,
}

/// A language's entry in the catalogue; the CPU ceiling is in thousandths of a CPU.
#[derive(Clone, Debug)]
pub struct LanguageConfig {
    pub name: String,
    pub version: String,
    pub image: String,
    pub dockerfile_path: String,
    pub execution: LanguageExecution,
    pub queue_name: String,
    pub memory_limit_mb: u32,
    pub cpu_millis: u32,
    pub resources: Resources,
    pub concurrency: Concurrency,
}

#[derive(Clone, Debug)]
pub struct LanguagesJson {
    pub languages: Vec<LanguageConfig>,
}

#[derive(Clone, Copy, Debug, PartialEq, Eq, Structural)]
pub enum CatalogueError {
    /// The language name or the file extension is empty.
    EmptyNameOrExtension,
    /// The catalogue already has a language of that name.
    AlreadyExists,
    /// The catalogue has no language of that name.
    NotFound,
}

/// Memory requested is twice the MiB given, the memory limit four times it in
/// GiB rounded up; CPU requested is the CPU given, the CPU limit four times it,
/// both in thousandths. Workers of 512 MiB or more run 2 jobs of 3 tests, others
/// 3 jobs of 5 tests.
pub fn calculate_resources(memory_mb: u32, cpu_millis: u32) -> (r: (Resources, Concurrency))
    ensures
        r.0.requests.memory@ == decimal_text(2 * memory_mb as nat) + "Mi"@,
        r.0.limits.memory@ == decimal_text(((4 * memory_mb as nat + 1023) / 1024) as nat) + "Gi"@,
        r.0.requests.cpu@ == decimal_text(cpu_millis as nat) + "m"@,
        r.0.limits.cpu@ == decimal_text(4 * cpu_millis as nat) + "m"@,
        memory_mb >= 512 ==> r.1 == (Concurrency { max_parallel_jobs: 2, max_parallel_tests: 3 }),
        memory_mb < 512 ==> r.1 == (Concurrency { max_parallel_jobs: 3, max_parallel_tests: 5 }),
{
    let m = memory_mb as u64;
    let c = cpu_millis as u64;
    let resources = Resources {
        requests: ResourceRequests {
            memory: concat(decimal(2 * m).as_str(), "Mi"),
            cpu: concat(decimal(c).as_str(), "m"),
        },
        limits: ResourceLimits {
            memory: concat(decimal((4 * m + 1023) / 1024).as_str(), "Gi"),
            cpu: concat(decimal(4 * c).as_str(), "m"),
        },
    };
    let concurrency = if memory_mb >= 512 {
        Concurrency { max_parallel_jobs: 2, max_parallel_tests: 3 }
    } else {
        Concurrency { max_parallel_jobs: 3, max_parallel_tests: 5 }
    };
    (resources, concurrency)
}

pub open spec fn has_language(languages: Seq<LanguageConfig>, name: Seq<char>) -> bool {
    exists|k: int| 0 <= k < languages.len() && languages[k].name@ == name
}

/// Where the language called `name` first stands in the catalogue, if anywhere.
pub fn find_language(catalogue: &LanguagesJson, name: &str) -> (r: Option<usize>)
    ensures
        (r is None) <==> !has_language(catalogue.languages@, name@),
        (r matches Some(k) ==> k < catalogue.languages@.len() && catalogue.languages@[k as int].name@
            == name@ && (forall|j: int| 0 <= j < k ==> catalogue.languages@[j].name@ != name@)),
{
    let target = String::from_str(name);
    for k in 0..catalogue.languages.len()
        invariant
            target@ == name@,
            forall|j: int| 0 <= j < k ==> catalogue.languages@[j].name@ != name@,
    {
        if catalogue.languages[k].name == target {
            return Some(k);
        }
    }
    None
}

/// The file extension with a leading dot.
pub open spec fn dotted(ext: Seq<char>) -> Seq<char> {
    if ext.len() > 0 && ext[0] == '.' {
        ext
    } else {
        seq!['.'] + ext
    }
}

/// The entry made for a new language: it runs `command` (the language's name by
/// default), reads the given queue (its canonical queue by default), and uses the
/// image `optimus-<name>:<version>`.
pub fn new_language_config(
    name: &str,
    ext: &str,
    version: &str,
    command: Option<&str>,
    queue: Option<&str>,
    memory_mb: u32,
    cpu_millis: u32,
) -> (r: LanguageConfig)
    ensures
        r.name@ == name@,
        r.version@ == version@,
        r.image@ == "optimus-"@ + name@ + ":"@ + version@,
        r.dockerfile_path@ == "dockerfiles/"@ + name@ + "/Dockerfile"@,
        r.execution.command@ == (match command {
            Some(c) => c@,
            None => name@,
        }),
        r.execution.args@.len() == 0,
        r.execution.file_extension@ == dotted(ext@),
        r.queue_name@ == (match queue {
            Some(q) => q@,
            None => "optimus:queue:"@ + name@,
        }),
        r.memory_limit_mb == memory_mb,
        r.cpu_millis == cpu_millis,
{
    let exec_command = match command {
        Some(c) => String::from_str(c),
        None => String::from_str(name),
    };
    let queue_name = match queue {
        Some(q) => String::from_str(q),
        None => concat("optimus:queue:", name),
    };
    let ext_chars = chars_of(ext);
    let file_extension = if ext_chars.len() > 0 && ext_chars[0] == '.' {
        String::from_str(ext)
    } else {
        proof {
            reveal_strlit(".");
            assert("."@ =~= seq!['.']);
        }
        concat(".", ext)
    };
    let mut image = concat("optimus-", name);
    image.append(":");
    image.append(version);
    let mut dockerfile_path = concat("dockerfiles/", name);
    dockerfile_path.append("/Dockerfile");
    let (resources, concurrency) = calculate_resources(memory_mb, cpu_millis);
    LanguageConfig {
        name: String::from_str(name),
        version: String::from_str(version),
        image,
        dockerfile_path,
        execution: LanguageExecution { command: exec_command, args: Vec::new(), file_extension },
        queue_name,
        memory_limit_mb: memory_mb,
        cpu_millis,
        resources,
        concurrency,
    }
}

/// Adds a new language to the catalogue, after the others. The name and the
/// extension must not be empty, and the name must not be taken.
pub fn add_language(
    catalogue: LanguagesJson,
    name: &str,
    ext: &str,
    version: &str,
    command: Option<&str>,
    queue: Option<&str>,
    memory_mb: u32,
    cpu_millis: u32,
) -> (r: Result<LanguagesJson, CatalogueError>)
    ensures
        name@.len() == 0 || ext@.len() == 0 ==> r matches Err(CatalogueError::EmptyNameOrExtension),
        name@.len() > 0 && ext@.len() > 0 && has_language(catalogue.languages@, name@) ==> (
        r matches Err(CatalogueError::AlreadyExists)),
        name@.len() > 0 && ext@.len() > 0 && !has_language(catalogue.languages@, name@) ==> (
        r matches Ok(c) && c.languages@.len() == catalogue.languages@.len() + 1
            && c.languages@.drop_last() == catalogue.languages@ && c.languages@.last().name@ == name@
            && c.languages@.last().version@ == version@),
{
    if name.unicode_len() == 0 || ext.unicode_len() == 0 {
        return Err(CatalogueError::EmptyNameOrExtension);
    }
    match find_language(&catalogue, name) {
        Some(_) => {
            return Err(CatalogueError::AlreadyExists);
        },
        None => {},
    }
    let entry = new_language_config(name, ext, version, command, queue, memory_mb, cpu_millis);
    let mut languages = catalogue.languages;
    let ghost before = languages@;
    languages.push(entry);
    assert(languages@.drop_last() =~= before);
    Ok(LanguagesJson { languages })
}

/// Takes the language called `name` out of the catalogue, returning the
/// catalogue without it and the removed entry.
pub fn remove_language(catalogue: LanguagesJson, name: &str) -> (r: Result<(LanguagesJson, LanguageConfig), CatalogueError>)
    ensures
        !has_language(catalogue.languages@, name@) ==> r matches Err(CatalogueError::NotFound),
        has_language(catalogue.languages@, name@) ==> (r matches Ok((c, removed)) && exists|k: int|
            0 <= k < catalogue.languages@.len() && catalogue.languages@[k].name@ == name@ && (forall|j: int|
                0 <= j < k ==> catalogue.languages@[j].name@ != name@) && removed
                == catalogue.languages@[k] && c.languages@ == catalogue.languages@.remove(k)),
{
    let k = match find_language(&catalogue, name) {
        Some(k) => k,
        None => {
            return Err(CatalogueError::NotFound);
        },
    };
    let mut languages = catalogue.languages;
    let ghost before = languages@;
    let removed = languages.remove(k);
    assert(languages@ == before.remove(k as int));
    Ok((LanguagesJson { languages }, removed))
}

/// The files that belong to a language besides its catalogue entry: its
/// Dockerfile directory, its worker deployment, and its two autoscaler objects.
pub fn language_files(name: &str) -> (r: Vec<String>)
    ensures
        r@.len() == 4,
        r@[0]@ == "dockerfiles/"@ + name@,
        r@[1]@ == "k8s/worker-deployment-"@ + name@ + ".yaml"@,
        r@[2]@ == "k8s/keda/scaled-object-"@ + name@ + ".yaml"@,
        r@[3]@ == "k8s/keda/scaled-object-"@ + name@ + "-retry.yaml"@,
{
    let mut deployment = concat("k8s/worker-deployment-", name);
    deployment.append(".yaml");
    let mut scaled = concat("k8s/keda/scaled-object-", name);
    scaled.append(".yaml");
    let mut scaled_retry = concat("k8s/keda/scaled-object-", name);
    scaled_retry.append("-retry.yaml");
    vec![concat("dockerfiles/", name), deployment, scaled, scaled_retry]
}

} // verus!
