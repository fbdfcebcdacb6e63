//! The two configuration files and what a request does to them.
//!
//! Each file is read whole as text or overwritten whole with the text
//! supplied. The functions here name the file and the text; the host touches
//! the disk. What is proved of the two together is proved of a host whose
//! files keep the text last written to them.

use vstd::prelude::*;
use vstd::string::StringExecFns;

verus! {

/// One of the two configuration files.
#[derive(Debug, Clone, Copy, PartialEq, Eq, Structural)]
pub enum ConfigSlot {
    /// The feed subscriptions.
    Rss,
    /// The sites that feeds come from.
    Site,
}

impl ConfigSlot {
    /// The name of the file that holds this slot.
    pub open spec fn path(self) -> Seq<char> {
        match self {
            ConfigSlot::Rss => "rss.json"@,
            ConfigSlot::Site => "node-site-config.json"@,
        }
    }

    /// The name of the file that holds this slot.
    pub fn file_name(self) -> (name: String)
        ensures
            name@ == self.path(),
    {
        match self {
            ConfigSlot::Rss => String::from_str("rss.json"),
            ConfigSlot::Site => String::from_str("node-site-config.json"),
        }
    }
}

/// A file to read whole.
#[derive(Debug, Clone, PartialEq, Eq)]
pub struct FileRead {
    pub path: String,
}

/// A file to overwrite whole with `content`.
#[derive(Debug, Clone, PartialEq, Eq)]
pub struct FileWrite {
    pub path: String,
    pub content: String,
}

/// Reads a slot.
pub fn read_config(slot: ConfigSlot) -> (access: FileRead)
    ensures
        access.path@ == slot.path(),
{
    FileRead { path: slot.file_name() }
}

/// Overwrites a slot with the text given, which is written as it stands.
pub fn save_config(slot: ConfigSlot, config: String) -> (access: FileWrite)
    ensures
        access.path@ == slot.path(),
        access.content == config,
{
    FileWrite { path: slot.file_name(), content: config }
}

/// Reads the feed subscriptions from `rss.json`.
pub fn read_rss_config() -> (access: FileRead)
    ensures
        access.path@ == "rss.json"@,
{
    read_config(ConfigSlot::Rss)
}

/// Overwrites `rss.json` with the feed subscriptions given.
pub fn save_rss_config(config: String) -> (access: FileWrite)
    ensures
        access.path@ == "rss.json"@,
        access.content == config,
{
    save_config(ConfigSlot::Rss, config)
}

/// Reads the site configuration from `node-site-config.json`.
pub fn read_site_config() -> (access: FileRead)
    ensures
        access.path@ == "node-site-config.json"@,
{
    read_config(ConfigSlot::Site)
}

/// Overwrites `node-site-config.json` with the site configuration given.
pub fn save_site_config(config: String) -> (access: FileWrite)
    ensures
        access.path@ == "node-site-config.json"@,
        access.content == config,
{
    save_config(ConfigSlot::Site, config)
}

/// The files of a host that keeps, under each name, the text last written
/// there: what they hold once `access` has been carried out.
pub open spec fn stored(files: Map<Seq<char>, Seq<char>>, access: FileWrite) -> Map<
    Seq<char>,
    Seq<char>,
> {
    files.insert(access.path@, access.content@)
}

/// What `access` finds in such files: the whole text of the file it names, or
/// nothing where there is no such file.
pub open spec fn found(files: Map<Seq<char>, Seq<char>>, access: FileRead) -> Option<Seq<char>> {
    if files.dom().contains(access.path@) {
        Some(files[access.path@])
    } else {
        None
    }
}

/// The two slots are different files.
pub proof fn lemma_slots_are_distinct_files()
    ensures
        ConfigSlot::Rss.path() != ConfigSlot::Site.path(),
{
    reveal_strlit("rss.json");
    reveal_strlit("node-site-config.json");
    assert(ConfigSlot::Rss.path().len() == 8);
    assert(ConfigSlot::Site.path().len() == 21);
}

/// A text saved to a slot is what reading that slot finds afterwards, whole
/// and unchanged, whatever the files held before and whatever the text is.
pub proof fn lemma_saved_text_reads_back(
    files: Map<Seq<char>, Seq<char>>,
    slot: ConfigSlot,
    save: FileWrite,
    read: FileRead,
)
    requires
        save.path@ == slot.path(),
        read.path@ == slot.path(),
    ensures
        found(stored(files, save), read) == Some(save.content@),
{
}

/// Saving one slot leaves what reading the other slot finds as it was.
pub proof fn lemma_saving_keeps_the_other_slot(
    files: Map<Seq<char>, Seq<char>>,
    slot: ConfigSlot,
    other: ConfigSlot,
    save: FileWrite,
    read: FileRead,
)
    requires
        slot != other,
        save.path@ == slot.path(),
        read.path@ == other.path(),
    ensures
        found(stored(files, save), read) == found(files, read),
{
    lemma_slots_are_distinct_files();
}

} // verus!
