//! Building an archive in memory and checking one that was read back.

use crate::job::Job;
use crate::map::GameMap;
use crate::text::{appended, has_extension, has_part, name_has_extension, same_text, str_contains};
use std::io::{Cursor, Write};
use vstd::prelude::*;
use vstd::string::StringSliceAdditionalSpecFns;
use zip::result::ZipError;
use zip::write::{FileOptions, ZipWriter};
use zip::{CompressionMethod, ZipArchive};

verus! {

/// The level at which entries are deflated.
pub const COMPRESSION_LEVEL: i32 = 5;

/// The most bytes that the name of an entry can have.
pub const MAX_NAME_BYTES: usize = 65_535;

/// What is said of an entry whose name has more bytes than that.
pub const NAME_TOO_LONG_TEXT: &'static str = "file name is longer than 65535 bytes";

/// The most bytes that the data of an entry can have: what the header of an entry can
/// count.
pub const MAX_ENTRY_BYTES: usize = 4_294_967_295;

/// What is said of an entry whose data has more bytes than that.
pub const DATA_TOO_LARGE_TEXT: &'static str = "file is larger than 4294967295 bytes";

/// `std::io::Cursor`, taken as it is: a buffer in memory with a place in it.
#[verifier::external_type_specification]
#[verifier::external_body]
#[verifier::reject_recursive_types(T)]
pub struct ExCursor<T>(Cursor<T>);

/// An archive that is being written into memory: a `zip::write::ZipWriter` over a buffer.
/// Nothing is seen of the writer but what `written_entries` says of it.
#[verifier::external_body]
pub struct ArchiveWriter {
    inner: ZipWriter<Cursor<Vec<u8>>>,
}

/// `zip::read::ZipArchive`, taken as it is: an archive that was opened for reading.
#[verifier::external_type_specification]
#[verifier::external_body]
#[verifier::reject_recursive_types(R)]
pub struct ExZipArchive<R>(ZipArchive<R>);

/// `zip::result::ZipError`, taken as it is: why the zip crate failed.
#[verifier::external_type_specification]
#[verifier::external_body]
pub struct ExZipError(ZipError);

/// The entries that were written into an archive so far, each with its name and its data,
/// in the order in which they were started.
pub uninterp spec fn written_entries(writer: ArchiveWriter) -> Seq<
    (Seq<char>, Seq<u8>),
>;

/// The names of the entries that an archive lists, in the order of the list.
pub uninterp spec fn listed_entries(archive: ZipArchive<Cursor<Vec<u8>>>) -> Seq<Seq<char>>;

/// The names of the entries that the zip crate lists for the bytes of an archive; `None`
/// where it does not take the bytes for an archive.
pub uninterp spec fn listing_of(bytes: Seq<u8>) -> Option<Seq<Seq<char>>>;

/// Whether the entry at an index of an archive can be opened.
pub uninterp spec fn entry_opens(archive: ZipArchive<Cursor<Vec<u8>>>, index: int) -> bool;

/// Whether the zip crate can open the entry at an index of the archive that the bytes hold.
pub uninterp spec fn opens_in(bytes: Seq<u8>, index: int) -> bool;

/// Whether an entry of the name can be started in the archive as it is.
pub uninterp spec fn start_succeeds(writer: ArchiveWriter, name: Seq<char>) -> bool;

/// Whether the data can be written into the entry that was started last in the archive as
/// it is.
pub uninterp spec fn write_succeeds(writer: ArchiveWriter, data: Seq<u8>) -> bool;

/// Whether the archive as it is can be finished.
pub uninterp spec fn finish_succeeds(writer: ArchiveWriter) -> bool;

/// The bytes that the zip crate hands out for the archive as it is, once it is finished.
pub uninterp spec fn finished_bytes(writer: ArchiveWriter) -> Seq<u8>;

/// The entries after `data` went into the entry that was started last.
pub open spec fn with_data(entries: Seq<(Seq<char>, Seq<u8>)>, data: Seq<u8>) -> Seq<
    (Seq<char>, Seq<u8>),
> {
    if entries.len() == 0 {
        entries
    } else {
        entries.drop_last().push((entries.last().0, entries.last().1 + data))
    }
}

/// `zip::write::ZipWriter::new` over a buffer in memory. Claimed: the new archive holds no
/// entry.
#[verifier::external_body]
pub(crate) fn new_writer() -> (writer: ArchiveWriter)
    ensures
        written_entries(writer).len() == 0,
{
    ArchiveWriter { inner: ZipWriter::new(Cursor::new(Vec::new())) }
}

/// `zip::write::ZipWriter::start_file`, with deflate at level 5. Claimed: whether it
/// succeeds depends on the archive and the name alone, the archive being held in memory;
/// where it succeeds, the archive has one more entry, under the given name and without data
/// yet. Nothing is claimed of the archive where it fails. A name of more bytes than an
/// entry's header can count is left out: the zip crate would write it with a wrong length.
#[verifier::external_body]
pub(crate) fn start_file(writer: &mut ArchiveWriter, name: &str) -> (r: Result<
    (),
    ZipError,
>)
    requires
        name.spec_bytes().len() <= MAX_NAME_BYTES,
    ensures
        r is Ok <==> start_succeeds(*old(writer), name@),
        r is Ok ==> written_entries(*final(writer)) == written_entries(*old(writer)).push(
            (name@, Seq::empty()),
        ),
{
    let options = FileOptions::default().compression_method(
        CompressionMethod::Deflated,
    ).compression_level(Some(COMPRESSION_LEVEL));
    writer.inner.start_file(name, options)
}

/// `std::io::Write::write_all` on a `zip::write::ZipWriter`. Claimed: whether it succeeds
/// depends on the archive and the data alone; where it succeeds, all of `data` went into
/// the entry that was started last. Nothing is claimed of the archive where it fails. Data
/// of more bytes than an entry's header can count is left out: the zip crate closes the
/// archive on it.
#[verifier::external_body]
pub(crate) fn write_data(writer: &mut ArchiveWriter, data: &Vec<u8>) -> (r: Result<
    (),
    ZipError,
>)
    requires
        data@.len() <= MAX_ENTRY_BYTES,
    ensures
        r is Ok <==> write_succeeds(*old(writer), data@),
        r is Ok ==> written_entries(*final(writer)) == with_data(
            written_entries(*old(writer)),
            data@,
        ),
{
    writer.inner.write_all(data).map_err(ZipError::from)
}

/// `zip::write::ZipWriter::finish`: the bytes of the archive. Claimed: whether it succeeds,
/// and the bytes that it then hands out, depend on the archive alone. Nothing is claimed of
/// what the bytes hold.
#[verifier::external_body]
pub(crate) fn finish_writer(writer: &mut ArchiveWriter) -> (r: Result<
    Vec<u8>,
    ZipError,
>)
    ensures
        r is Ok <==> finish_succeeds(*old(writer)),
        r matches Ok(bytes) ==> bytes@ == finished_bytes(*old(writer)),
{
    writer.inner.finish().map(Cursor::into_inner)
}

/// `zip::read::ZipArchive::new` over bytes in memory. Claimed: whether the bytes open as an
/// archive, which entries the archive then lists, and which of them can be opened, depends
/// on the bytes alone.
#[verifier::external_body]
pub(crate) fn open_archive(bytes: Vec<u8>) -> (r: Result<ZipArchive<Cursor<Vec<u8>>>, ZipError>)
    ensures
        match r {
            Ok(archive) => {
                &&& listing_of(bytes@) == Some(listed_entries(archive))
                &&& forall|index: int| #[trigger] entry_opens(archive, index) == opens_in(bytes@, index)
            },
            Err(_) => listing_of(bytes@) is None,
        },
{
    ZipArchive::new(Cursor::new(bytes))
}

/// `zip::read::ZipArchive::len`: the number of entries that the archive lists.
#[verifier::external_body]
pub(crate) fn archive_len(archive: &ZipArchive<Cursor<Vec<u8>>>) -> (r: usize)
    ensures
        r == listed_entries(*archive).len(),
{
    archive.len()
}

/// `zip::read::ZipArchive::by_index_decrypt` with an empty password, and the entry let go at
/// once. For an entry that is not encrypted the password is not looked at. An encrypted
/// entry that the zip crate turns away for its password counts as one that cannot be
/// opened; the zip crate tests a password by one byte only, so now and then it lets the
/// empty one pass, and the entry then opens. Claimed: whether the entry opens depends on the
/// archive and the index alone; an index at or beyond the number of entries fails; and the
/// archive lists the same entries afterwards as before.
#[verifier::external_body]
pub(crate) fn open_entry(archive: &mut ZipArchive<Cursor<Vec<u8>>>, index: usize) -> (r: Result<
    (),
    ZipError,
>)
    ensures
        r is Ok <==> entry_opens(*old(archive), index as int),
        index >= listed_entries(*old(archive)).len() ==> r is Err,
        listed_entries(*final(archive)) == listed_entries(*old(archive)),
{
    match archive.by_index_decrypt(index, b"") {
        Ok(Ok(_)) => Ok(()),
        Ok(Err(_)) => Err(ZipError::UnsupportedArchive(ZipError::PASSWORD_REQUIRED)),
        Err(e) => Err(e),
    }
}

/// The text of a `zip::result::ZipError`, as its `Display` gives it. Nothing is claimed of
/// the text.
#[verifier::external_body]
pub(crate) fn error_text(error: &ZipError) -> String {
    error.to_string()
}

/// The folder of an archive that holds the saves.
pub const SAVES_FOLDER: &'static str = "SavedArks/";

/// The name under which the game's settings go into an archive.
pub const GAME_INI_ENTRY: &'static str = "INI Settings/Game.ini";

/// The name under which the user's settings go into an archive.
pub const GAME_USER_SETTINGS_INI_ENTRY: &'static str = "INI Settings/GameUserSettings.ini";

/// The folder of an archive that holds the plugins' configurations.
pub const PLUGIN_FOLDER: &'static str = "Plugin/";

/// The name of a plugin's configuration file.
pub const PLUGIN_CONFIG_FILE: &'static str = "config.json";

/// One entry of an archive: its name and its data.
pub type Entry = (Seq<char>, Seq<u8>);

/// A file that may go into an archive.
#[derive(Debug)]
pub struct SourceFile {
    /// The file's name, without the directories above it.
    pub name: String,
    /// The name of the directory that holds the file.
    pub folder: String,
    /// How many folders lie between the directory that was listed and the file: 0 for a
    /// file right in that directory, 1 for a file in one of its folders.
    pub depth: usize,
    /// What the file holds; `None` where it could not be opened or read.
    pub contents: Option<Vec<u8>>,
}

/// What one run of a job found on disk to put into its archive.
#[derive(Debug)]
pub struct BackupSources {
    /// The files below the directory of the map's saves.
    pub saves: Vec<SourceFile>,
    /// `Game.ini`; `None` where it is missing or cannot be read.
    pub game_ini: Option<Vec<u8>>,
    /// `GameUserSettings.ini`; `None` where it is missing or cannot be read.
    pub game_user_settings_ini: Option<Vec<u8>>,
    /// The files in the plugins directory and in the directories right below it.
    pub plugins: Vec<SourceFile>,
}

/// What an entry is.
#[derive(Clone, Copy, Debug, PartialEq, Eq, Structural)]
pub enum EntryKind {
    SaveFile,
    GameIni,
    GameUserSettingsIni,
    PluginConfig,
}

/// At which step the writing of an entry failed.
#[derive(Clone, Copy, Debug, PartialEq, Eq, Structural)]
pub enum WriteStage {
    /// When the entry was started.
    Start,
    /// When the data was written.
    Write,
}

/// Why an archive could not be built. An error ends the attempt.
#[derive(Debug)]
pub enum ArchiveError {
    /// An entry could not be written. `closed` says whether the archive had been closed
    /// before its time, going by the words of `detail`, the writer's own error.
    Entry { kind: EntryKind, stage: WriteStage, closed: bool, detail: String },
    /// The archive could not be finished.
    Finalize { detail: String },
}

/// An archive that was built in memory.
pub struct FinishedArchive {
    /// The bytes of the archive.
    pub bytes: Vec<u8>,
    /// The entries that were written into it.
    pub entries: Ghost<Seq<Entry>>,
}

/// Why an archive does not pass for complete.
#[derive(Debug)]
pub enum IntegrityError {
    /// The bytes do not open as an archive.
    Unreadable(String),
    /// The archive holds no entry.
    Empty,
    /// The first entry cannot be read.
    FirstEntryUnreadable(String),
}

/// One entry that is to be written into an archive.
#[derive(Debug)]
pub struct PlannedEntry<'a> {
    pub kind: EntryKind,
    /// The name of the entry in the archive.
    pub name: String,
    /// What the entry holds.
    pub data: &'a Vec<u8>,
}

/// The states that a writer went through while entries were written into it one after
/// another.
pub struct WriteTrace {
    /// The archive before each entry, and behind them the archive after the last.
    pub befores: Seq<ArchiveWriter>,
    /// The archive after each entry was started and before its data was written.
    pub mids: Seq<ArchiveWriter>,
}

/// The entry that a planned entry stands for.
pub open spec fn entry_of(planned: PlannedEntry) -> Entry {
    (planned.name@, planned.data@)
}

/// The entries that a plan stands for.
pub open spec fn entries_of(plan: Seq<PlannedEntry>) -> Seq<Entry> {
    plan.map_values(|planned: PlannedEntry| entry_of(planned))
}

/// Whether an entry goes into an archive: name and data fit, it can be started in the archive
/// as it is before, and its data can be written into the archive as it is once the entry
/// was started.
pub open spec fn goes_in(before: ArchiveWriter, mid: ArchiveWriter, entry: Entry) -> bool {
    entry_fits(entry) && start_succeeds(before, entry.0) && write_succeeds(mid, entry.1)
}

/// Whether `mid` can be the archive after the entry was started in `before`: where the
/// start succeeds, the archive has the entry, without data yet.
pub open spec fn started_on(before: ArchiveWriter, mid: ArchiveWriter, entry: Entry) -> bool {
    entry_fits(entry) && start_succeeds(before, entry.0) ==> written_entries(mid)
        == written_entries(before).push((entry.0, Seq::empty()))
}

impl WriteTrace {
    /// Whether the first `count` entries went in.
    pub open spec fn went_in(self, entries: Seq<Entry>, count: int) -> bool {
        forall|j: int|
            0 <= j < count ==> #[trigger] goes_in(self.befores[j], self.mids[j], entries[j])
    }

    /// Whether these are states of a writer that started as `start` and was given the
    /// entries, and `ok` says whether all of them went in.
    pub open spec fn tells(self, start: ArchiveWriter, entries: Seq<Entry>, ok: bool) -> bool {
        self.follows(start, entries) && (ok <==> self.went_in(entries, entries.len() as int))
    }

    /// Whether these are states of a writer that started as `start` and was given the
    /// entries one after another: as long as the entries went in, the archive holds what
    /// it held at the start and the entries so far.
    pub open spec fn follows(self, start: ArchiveWriter, entries: Seq<Entry>) -> bool {
        &&& self.befores.len() == entries.len() + 1
        &&& self.mids.len() == entries.len()
        &&& self.befores[0] == start
        &&& forall|k: int|
            0 <= k <= entries.len() && #[trigger] self.went_in(entries, k) ==> written_entries(
                self.befores[k],
            ) == written_entries(start) + entries.take(k)
        &&& forall|k: int|
            0 <= k < entries.len() && #[trigger] self.went_in(entries, k) ==> started_on(
                self.befores[k],
                self.mids[k],
                entries[k],
            )
    }
}

/// Whether a name can stand in an archive: its bytes can be counted in an entry's header.
pub open spec fn name_fits(name: Seq<char>) -> bool {
    vstd::utf8::encode_utf8(name).len() <= MAX_NAME_BYTES
}

/// Whether name and data of every entry can stand in an archive.
pub open spec fn entries_fit(entries: Seq<Entry>) -> bool {
    forall|k: int| 0 <= k < entries.len() ==> entry_fits(#[trigger] entries[k])
}

/// Whether the data of an entry can stand in an archive: its bytes can be counted in an
/// entry's header.
pub open spec fn data_fits(data: Seq<u8>) -> bool {
    data.len() <= MAX_ENTRY_BYTES
}

/// Whether name and data of an entry can stand in an archive.
pub open spec fn entry_fits(entry: Entry) -> bool {
    name_fits(entry.0) && data_fits(entry.1)
}

/// Whether a job asks for the part of the archive that an entry of this kind belongs to.
pub open spec fn asks_for(job: Job, kind: EntryKind) -> bool {
    match kind {
        EntryKind::SaveFile => job.include_saves || job.include_map,
        EntryKind::GameIni => job.include_server_files,
        EntryKind::GameUserSettingsIni => job.include_server_files,
        EntryKind::PluginConfig => job.include_plugin_configs,
    }
}

/// Whether the bytes pass for a complete archive: they open as an archive that lists at
/// least one entry, and the first entry can be opened.
pub open spec fn passes(bytes: Seq<u8>) -> bool {
    listing_of(bytes) matches Some(names) && names.len() > 0 && opens_in(bytes, 0)
}

/// Whether the words of a writer's error say that the archive was closed.
pub open spec fn says_closed(detail: Seq<char>) -> bool {
    has_part(detail, "closed"@) || has_part(detail, "finished"@)
}

/// Whether a file among the saves goes into the archive: the map's own file where the map
/// is wanted, and every profile and tribe file where the saves are wanted. A map file must
/// bear the expected name to the letter.
pub open spec fn takes_save(name: Seq<char>, include_saves: bool, include_map: bool, map: GameMap)
    -> bool {
    ||| include_map && name == map.spec_map_file_name()
    ||| include_saves && (has_extension(name, "arkprofile"@) || has_extension(name, "arktribe"@))
}

/// The test that a file among the saves is written into the archive: it is wanted and could
/// be read.
pub open spec fn adds_save(include_saves: bool, include_map: bool, map: GameMap) -> spec_fn(
    SourceFile,
) -> bool {
    |file: SourceFile| takes_save(file.name@, include_saves, include_map, map) && file.contents is Some
}

/// The entry of a save.
pub open spec fn save_entry(file: SourceFile) -> Entry {
    (SAVES_FOLDER@ + file.name@, file.contents->0@)
}

/// The entries that the saves give, in the order of the files.
pub open spec fn save_entries(
    files: Seq<SourceFile>,
    include_saves: bool,
    include_map: bool,
    map: GameMap,
) -> Seq<Entry> {
    files.filter(adds_save(include_saves, include_map, map)).map_values(
        |file: SourceFile| save_entry(file),
    )
}

/// The entries that the two settings files give: each that could be read, `Game.ini` first.
pub open spec fn ini_entries(game_ini: Option<Vec<u8>>, game_user_settings_ini: Option<Vec<u8>>)
    -> Seq<Entry> {
    let first = match game_ini {
        Some(data) => seq![(GAME_INI_ENTRY@, data@)],
        None => Seq::empty(),
    };
    let second = match game_user_settings_ini {
        Some(data) => seq![(GAME_USER_SETTINGS_INI_ENTRY@, data@)],
        None => Seq::empty(),
    };
    first + second
}

/// Whether a file among the plugins is a plugin's configuration: it bears the name of one
/// and lies in a folder right below the plugins directory, which is the plugin's folder.
pub open spec fn is_config_of_plugin(name: Seq<char>, depth: usize) -> bool {
    name == PLUGIN_CONFIG_FILE@ && depth == 1
}

/// The test that a file among the plugins is written into the archive: it is a plugin's
/// configuration and could be read.
pub open spec fn adds_plugin_config() -> spec_fn(SourceFile) -> bool {
    |file: SourceFile| is_config_of_plugin(file.name@, file.depth) && file.contents is Some
}

/// The entry of a plugin's configuration: it lies in a folder of the plugin's name.
pub open spec fn plugin_entry(file: SourceFile) -> Entry {
    (PLUGIN_FOLDER@ + file.folder@ + "/"@ + PLUGIN_CONFIG_FILE@, file.contents->0@)
}

/// The entries that the plugins give, in the order of the files.
pub open spec fn plugin_entries(files: Seq<SourceFile>) -> Seq<Entry> {
    files.filter(adds_plugin_config()).map_values(|file: SourceFile| plugin_entry(file))
}

/// The entries of a job's archive: the saves, the settings and the plugins' configurations,
/// each part where the job asks for it.
pub open spec fn planned_entries(job: Job, map: GameMap, sources: BackupSources) -> Seq<Entry> {
    let saves = if job.include_saves || job.include_map {
        save_entries(sources.saves@, job.include_saves, job.include_map, map)
    } else {
        Seq::empty()
    };
    let settings = if job.include_server_files {
        ini_entries(sources.game_ini, sources.game_user_settings_ini)
    } else {
        Seq::empty()
    };
    let plugins = if job.include_plugin_configs {
        plugin_entries(sources.plugins@)
    } else {
        Seq::empty()
    };
    saves + settings + plugins
}

/// How an entry is called in the text of an error.
pub open spec fn kind_label(kind: EntryKind) -> Seq<char> {
    match kind {
        EntryKind::SaveFile => "file"@,
        EntryKind::GameIni => "Game.ini"@,
        EntryKind::GameUserSettingsIni => "GameUserSettings.ini"@,
        EntryKind::PluginConfig => "config.json"@,
    }
}

/// The text that tells a person why an archive could not be built.
pub open spec fn archive_error_text(error: ArchiveError) -> Seq<char> {
    match error {
        ArchiveError::Finalize { detail } => "Failed to finalize ZIP file"@,
        ArchiveError::Entry { kind: EntryKind::SaveFile, stage, closed, detail } => match (
            stage,
            closed,
        ) {
            (WriteStage::Write, true) => "ZIP writer was closed: "@ + detail@,
            (WriteStage::Write, false) => "Failed to write file to ZIP: "@ + detail@,
            (WriteStage::Start, true) => "ZIP writer was closed: "@ + detail@
                + ". This may indicate a previous error (disk full, I/O error) caused the ZIP to be finalized prematurely."@,
            (WriteStage::Start, false) => "Failed to start file entry in ZIP: "@ + detail@,
        },
        ArchiveError::Entry { kind, stage, closed, detail } => match (stage, closed) {
            (WriteStage::Write, true) => "ZIP writer was closed while adding "@ + kind_label(kind)
                + ": "@ + detail@,
            (WriteStage::Write, false) => "Failed to write "@ + kind_label(kind) + " to ZIP: "@
                + detail@,
            (WriteStage::Start, true) => "ZIP writer was closed while starting "@ + kind_label(
                kind,
            ) + " entry: "@ + detail@,
            (WriteStage::Start, false) => "Failed to start "@ + kind_label(kind)
                + " entry in ZIP: "@ + detail@,
        },
    }
}

/// What goes into the archive from among the saves is told by the end of its name: a file
/// that is taken ends in `.ark`, `.arkprofile` or `.arktribe`. The map's own file ends in
/// `.ark`, so it is never taken for a profile or a tribe, and of the files that end in
/// `.ark` only the one that bears the map's file name to the letter is taken.
pub proof fn lemma_saves_by_extension(
    name: Seq<char>,
    include_saves: bool,
    include_map: bool,
    map: GameMap,
)
    ensures
        has_extension(map.spec_map_file_name(), "ark"@),
        takes_save(name, include_saves, include_map, map) ==> has_extension(name, "ark"@)
            || has_extension(name, "arkprofile"@) || has_extension(name, "arktribe"@),
        has_extension(name, "ark"@) ==> (takes_save(name, include_saves, include_map, map) <==> (
        include_map && name == map.spec_map_file_name())),
{
    reveal_strlit("ark");
    reveal_strlit("arkprofile");
    reveal_strlit("arktribe");
    reveal_strlit("_WP.ark");
    let file = map.spec_map_file_name();
    let base = map.spec_base_name();
    assert(file.len() == base.len() + 7);
    assert(file.subrange(file.len() - 4, file.len() as int) =~= seq!['.'] + "ark"@);
    if has_extension(name, "ark"@) {
        let n = name.len() as int;
        assert(name[n - 1] == (seq!['.'] + "ark"@)[3]);
        if has_extension(name, "arkprofile"@) {
            assert(name[n - 1] == (seq!['.'] + "arkprofile"@)[10]);
        }
        if has_extension(name, "arktribe"@) {
            assert(name[n - 1] == (seq!['.'] + "arktribe"@)[8]);
        }
    }
}

/// Whether the words of a writer's error say that the archive was closed.
pub fn detail_says_closed(detail: &str) -> (r: bool)
    ensures
        r == says_closed(detail@),
{
    str_contains(detail, "closed") || str_contains(detail, "finished")
}

/// The error for an entry that could not be written, from the writer's own words.
pub fn entry_error(kind: EntryKind, stage: WriteStage, detail: String) -> (r: ArchiveError)
    ensures
        r matches ArchiveError::Entry { kind: k, stage: s, closed, detail: d } && k == kind && s
            == stage && closed == says_closed(detail@) && d@ == detail@,
{
    let closed = detail_says_closed(detail.as_str());
    ArchiveError::Entry { kind, stage, closed, detail }
}

/// How an entry is called in the text of an error.
pub fn label_of(kind: EntryKind) -> (r: &'static str)
    ensures
        r@ == kind_label(kind),
{
    match kind {
        EntryKind::SaveFile => "file",
        EntryKind::GameIni => "Game.ini",
        EntryKind::GameUserSettingsIni => "GameUserSettings.ini",
        EntryKind::PluginConfig => "config.json",
    }
}

/// Writes out why an archive could not be built.
pub fn describe_archive_error(error: &ArchiveError) -> (r: String)
    ensures
        r@ == archive_error_text(*error),
{
    match error {
        ArchiveError::Finalize { detail } => "Failed to finalize ZIP file".to_owned(),
        ArchiveError::Entry { kind: EntryKind::SaveFile, stage, closed, detail } => {
            match (stage, closed) {
                (WriteStage::Write, true) => appended("ZIP writer was closed: ", detail.as_str()),
                (WriteStage::Write, false) => appended(
                    "Failed to write file to ZIP: ",
                    detail.as_str(),
                ),
                (WriteStage::Start, true) => {
                    let head = appended("ZIP writer was closed: ", detail.as_str());
                    appended(
                        head.as_str(),
                        ". This may indicate a previous error (disk full, I/O error) caused the ZIP to be finalized prematurely.",
                    )
                },
                (WriteStage::Start, false) => appended(
                    "Failed to start file entry in ZIP: ",
                    detail.as_str(),
                ),
            }
        },
        ArchiveError::Entry { kind, stage, closed, detail } => {
            let label = label_of(*kind);
            match (stage, closed) {
                (WriteStage::Write, true) => {
                    let a = appended("ZIP writer was closed while adding ", label);
                    let b = appended(a.as_str(), ": ");
                    appended(b.as_str(), detail.as_str())
                },
                (WriteStage::Write, false) => {
                    let a = appended("Failed to write ", label);
                    let b = appended(a.as_str(), " to ZIP: ");
                    appended(b.as_str(), detail.as_str())
                },
                (WriteStage::Start, true) => {
                    let a = appended("ZIP writer was closed while starting ", label);
                    let b = appended(a.as_str(), " entry: ");
                    appended(b.as_str(), detail.as_str())
                },
                (WriteStage::Start, false) => {
                    let a = appended("Failed to start ", label);
                    let b = appended(a.as_str(), " entry in ZIP: ");
                    appended(b.as_str(), detail.as_str())
                },
            }
        },
    }
}

/// Writes one entry into an archive: starts it, then writes its data. It succeeds exactly
/// where name and data fit an archive, the entry can be started, and the data can then be
/// written. The first of the steps to fail gives the error. An entry whose name is too long
/// or whose data is too large for an archive is not started.
pub fn add_entry(zip: &mut ArchiveWriter, kind: EntryKind, name: &str, data: &Vec<u8>) -> (r:
    Result<(), ArchiveError>)
    ensures
        exists|mid: ArchiveWriter|
            started_on(*old(zip), mid, (name@, data@)) && (r is Ok <==> #[trigger] goes_in(
                *old(zip),
                mid,
                (name@, data@),
            )),
        r is Ok ==> written_entries(*final(zip)) == written_entries(*old(zip)).push(
            (name@, data@),
        ),
        r matches Err(e) ==> e matches ArchiveError::Entry { kind: k, closed, detail, .. } && k
            == kind && closed == says_closed(detail@),
        !name_fits(name@) ==> (r matches Err(
            ArchiveError::Entry { stage: WriteStage::Start, detail, .. },
        ) && detail@ == NAME_TOO_LONG_TEXT@ && *final(zip) == *old(zip)),
        name_fits(name@) && !data_fits(data@) ==> (r matches Err(
            ArchiveError::Entry { stage: WriteStage::Write, detail, .. },
        ) && detail@ == DATA_TOO_LARGE_TEXT@ && *final(zip) == *old(zip)),
        entry_fits((name@, data@)) && !start_succeeds(*old(zip), name@) ==> r matches Err(
            ArchiveError::Entry { stage: WriteStage::Start, .. },
        ),
{
    if name.as_bytes().len() > MAX_NAME_BYTES {
        assert(!goes_in(*zip, *zip, (name@, data@)));
        return Err(entry_error(kind, WriteStage::Start, NAME_TOO_LONG_TEXT.to_owned()));
    }
    if data.len() > MAX_ENTRY_BYTES {
        assert(!goes_in(*zip, *zip, (name@, data@)));
        return Err(entry_error(kind, WriteStage::Write, DATA_TOO_LARGE_TEXT.to_owned()));
    }
    match start_file(zip, name) {
        Ok(()) => {},
        Err(e) => {
            assert(!goes_in(*old(zip), *zip, (name@, data@)));
            return Err(entry_error(kind, WriteStage::Start, error_text(&e)));
        },
    }
    let ghost mid = *zip;
    match write_data(zip, data) {
        Ok(()) => {
            assert(goes_in(*old(zip), mid, (name@, data@)));
            Ok(())
        },
        Err(e) => {
            assert(!goes_in(*old(zip), mid, (name@, data@)));
            Err(entry_error(kind, WriteStage::Write, error_text(&e)))
        },
    }
}

/// Writes the entries of a plan into an archive, one after another. It succeeds exactly
/// where every entry goes in; the first that does not gives the error and ends the writing.
pub fn write_entries(zip: &mut ArchiveWriter, plan: &Vec<PlannedEntry>) -> (r: Result<
    (),
    ArchiveError,
>)
    ensures
        exists|trace: WriteTrace|
            {
                &&& #[trigger] trace.tells(*old(zip), entries_of(plan@), r is Ok)
                &&& r is Ok ==> *final(zip) == trace.befores.last()
            },
        r is Ok ==> written_entries(*final(zip)) == written_entries(*old(zip)) + entries_of(plan@),
        r is Ok ==> entries_fit(entries_of(plan@)),
        r matches Err(e) ==> e matches ArchiveError::Entry { kind, closed, detail, .. } && closed
            == says_closed(detail@) && exists|k: int|
            0 <= k < plan@.len() && (#[trigger] plan@[k]).kind == kind,
{
    let ghost entries = entries_of(plan@);
    let ghost mut trace = WriteTrace { befores: seq![*zip], mids: Seq::empty() };
    let mut i: usize = 0;
    assert(entries.take(0) =~= Seq::<Entry>::empty());
    assert(written_entries(*zip) =~= written_entries(*old(zip)) + entries.take(0));
    while i < plan.len()
        invariant
            i <= plan.len(),
            entries == entries_of(plan@),
            trace.befores.len() == i + 1,
            trace.mids.len() == i,
            trace.befores[0] == *old(zip),
            trace.befores[i as int] == *zip,
            trace.went_in(entries, i as int),
            forall|k: int|
                0 <= k <= i ==> written_entries(#[trigger] trace.befores[k]) == written_entries(
                    *old(zip),
                ) + entries.take(k),
            forall|k: int|
                0 <= k < i ==> started_on(
                    #[trigger] trace.befores[k],
                    trace.mids[k],
                    entries[k],
                ),
            entries_fit(entries.take(i as int)),
        decreases plan.len() - i,
    {
        let ghost before = *zip;
        let ghost so_far = trace;
        let planned = &plan[i];
        let outcome = add_entry(zip, planned.kind, planned.name.as_str(), planned.data);
        let ghost mid = choose|mid: ArchiveWriter|
            started_on(before, mid, entries[i as int]) && (outcome is Ok <==> goes_in(
                before,
                mid,
                entries[i as int],
            ));
        proof {
            assert(entries[i as int] == (planned.name@, planned.data@));
            assert(entries.take(i + 1) =~= entries.take(i as int).push(entries[i as int]));
        }
        match outcome {
            Ok(()) => {
                proof {
                    trace = WriteTrace {
                        befores: so_far.befores.push(*zip),
                        mids: so_far.mids.push(mid),
                    };
                    assert forall|j: int| 0 <= j < i + 1 implies #[trigger] goes_in(
                        trace.befores[j],
                        trace.mids[j],
                        entries[j],
                    ) by {
                        if j < i {
                            assert(goes_in(so_far.befores[j], so_far.mids[j], entries[j]));
                        }
                    }
                    assert forall|k: int| 0 <= k <= i + 1 implies written_entries(
                        #[trigger] trace.befores[k],
                    ) == written_entries(*old(zip)) + entries.take(k) by {
                        if k <= i {
                            assert(trace.befores[k] == so_far.befores[k]);
                        }
                    }
                    assert forall|k: int| 0 <= k < i + 1 implies started_on(
                        #[trigger] trace.befores[k],
                        trace.mids[k],
                        entries[k],
                    ) by {
                        if k < i {
                            assert(trace.befores[k] == so_far.befores[k]);
                        }
                    }
                }
            },
            Err(e) => {
                proof {
                    let rest = (plan@.len() - i) as nat;
                    let full = WriteTrace {
                        befores: so_far.befores + Seq::new(rest, |k: int| before),
                        mids: so_far.mids.push(mid) + Seq::new((rest - 1) as nat, |k: int| before),
                    };
                    assert(full.befores[i as int] == before);
                    assert(full.mids[i as int] == mid);
                    assert(!goes_in(full.befores[i as int], full.mids[i as int], entries[i as int]));
                    assert(!full.went_in(entries, plan@.len() as int));
                    assert forall|k: int|
                        0 <= k <= entries.len() && #[trigger] full.went_in(
                            entries,
                            k,
                        ) implies written_entries(full.befores[k]) == written_entries(*old(zip))
                        + entries.take(k) by {
                        if k <= i {
                            assert(full.befores[k] == so_far.befores[k]);
                        } else {
                            assert(goes_in(
                                full.befores[i as int],
                                full.mids[i as int],
                                entries[i as int],
                            ));
                        }
                    }
                    assert forall|k: int|
                        0 <= k < entries.len() && #[trigger] full.went_in(
                            entries,
                            k,
                        ) implies started_on(full.befores[k], full.mids[k], entries[k]) by {
                        if k < i {
                            assert(full.befores[k] == so_far.befores[k]);
                            assert(full.mids[k] == so_far.mids[k]);
                        } else if k > i {
                            assert(goes_in(
                                full.befores[i as int],
                                full.mids[i as int],
                                entries[i as int],
                            ));
                        }
                    }
                    assert(full.follows(*old(zip), entries));
                    assert(full.tells(*old(zip), entries, false));
                    assert(plan@[i as int].kind == planned.kind);
                }
                return Err(e);
            },
        }
        i += 1;
    }
    proof {
        assert(entries.take(i as int) =~= entries);
        assert forall|k: int|
            0 <= k <= entries.len() && #[trigger] trace.went_in(
                entries,
                k,
            ) implies written_entries(trace.befores[k]) == written_entries(*old(zip))
            + entries.take(k) by {}
        assert forall|k: int|
            0 <= k < entries.len() && #[trigger] trace.went_in(entries, k) implies started_on(
            trace.befores[k],
            trace.mids[k],
            entries[k],
        ) by {}
        assert(trace.follows(*old(zip), entries));
        assert(trace.tells(*old(zip), entries, true));
        assert(trace.befores.last() == *zip);
    }
    Ok(())
}

/// Whether a file among the saves goes into the archive.
pub fn selects_save_file(name: &str, include_saves: bool, include_map: bool, map: &GameMap) -> (r:
    bool)
    ensures
        r == takes_save(name@, include_saves, include_map, *map),
{
    if include_map && same_text(name, map.map_file_name().as_str()) {
        return true;
    }
    include_saves && (name_has_extension(name, "arkprofile") || name_has_extension(
        name,
        "arktribe",
    ))
}

/// Whether a file among the plugins is a plugin's configuration: a `config.json` in a folder
/// right below the plugins directory. One that lies in the plugins directory itself, or
/// deeper, belongs to no plugin.
pub fn is_plugin_config(name: &str, depth: usize) -> (r: bool)
    ensures
        r == is_config_of_plugin(name@, depth),
{
    depth == 1 && same_text(name, PLUGIN_CONFIG_FILE)
}

/// The entries that the saves give: for every file that is wanted and could be read, an
/// entry below `SavedArks/` under the file's own name. A file that could not be read is
/// passed over.
pub fn plan_saves<'a>(
    files: &'a Vec<SourceFile>,
    include_saves: bool,
    include_map: bool,
    map: &GameMap,
) -> (plan: Vec<PlannedEntry<'a>>)
    ensures
        entries_of(plan@) == save_entries(files@, include_saves, include_map, *map),
        forall|k: int| 0 <= k < plan@.len() ==> (#[trigger] plan@[k]).kind == EntryKind::SaveFile,
{
    let ghost test = adds_save(include_saves, include_map, *map);
    let ghost entry = |file: SourceFile| save_entry(file);
    let mut plan: Vec<PlannedEntry<'a>> = Vec::new();
    let mut i: usize = 0;
    assert(entries_of(plan@) =~= files@.take(0).filter(test).map_values(entry)) by {
        reveal(Seq::filter);
    }
    while i < files.len()
        invariant
            i <= files.len(),
            test == adds_save(include_saves, include_map, *map),
            entry == (|file: SourceFile| save_entry(file)),
            entries_of(plan@) == files@.take(i as int).filter(test).map_values(entry),
            forall|k: int|
                0 <= k < plan@.len() ==> (#[trigger] plan@[k]).kind == EntryKind::SaveFile,
        decreases files.len() - i,
    {
        let file = &files[i];
        proof {
            assert(files@.take(i + 1) =~= files@.take(i as int).push(*file));
            files@.take(i as int).lemma_filter_push(*file, test);
            let kept = files@.take(i as int).filter(test);
            assert(kept.push(*file).map_values(entry) =~= kept.map_values(entry).push(
                save_entry(*file),
            ));
        }
        if selects_save_file(file.name.as_str(), include_saves, include_map, map) {
            match &file.contents {
                Some(data) => {
                    let ghost before = entries_of(plan@);
                    let name = appended(SAVES_FOLDER, file.name.as_str());
                    plan.push(PlannedEntry { kind: EntryKind::SaveFile, name, data });
                    assert(entries_of(plan@) =~= before.push(save_entry(*file)));
                },
                None => {},
            }
        }
        i += 1;
    }
    proof {
        assert(files@.take(i as int) =~= files@);
    }
    plan
}

/// The entries that the two settings files give: each that could be read, `Game.ini` first.
/// A file that is missing or could not be read is passed over.
pub fn plan_ini_files<'a>(
    game_ini: &'a Option<Vec<u8>>,
    game_user_settings_ini: &'a Option<Vec<u8>>,
) -> (plan: Vec<PlannedEntry<'a>>)
    ensures
        entries_of(plan@) == ini_entries(*game_ini, *game_user_settings_ini),
        forall|k: int|
            0 <= k < plan@.len() ==> (#[trigger] plan@[k]).kind == EntryKind::GameIni
                || plan@[k].kind == EntryKind::GameUserSettingsIni,
{
    let mut plan: Vec<PlannedEntry<'a>> = Vec::new();
    match game_ini {
        Some(data) => {
            plan.push(
                PlannedEntry { kind: EntryKind::GameIni, name: GAME_INI_ENTRY.to_owned(), data },
            );
        },
        None => {},
    }
    match game_user_settings_ini {
        Some(data) => {
            plan.push(
                PlannedEntry {
                    kind: EntryKind::GameUserSettingsIni,
                    name: GAME_USER_SETTINGS_INI_ENTRY.to_owned(),
                    data,
                },
            );
        },
        None => {},
    }
    assert(entries_of(plan@) =~= ini_entries(*game_ini, *game_user_settings_ini));
    plan
}

/// The entries that the plugins give: for the `config.json` of every folder right below the
/// plugins directory, where it could be read, an entry below `Plugin/` in a folder of the
/// plugin's name. Other files are passed over, and so is a configuration that could not be
/// read.
pub fn plan_plugin_configs<'a>(files: &'a Vec<SourceFile>) -> (plan: Vec<PlannedEntry<'a>>)
    ensures
        entries_of(plan@) == plugin_entries(files@),
        forall|k: int|
            0 <= k < plan@.len() ==> (#[trigger] plan@[k]).kind == EntryKind::PluginConfig,
{
    let ghost test = adds_plugin_config();
    let ghost entry = |file: SourceFile| plugin_entry(file);
    let mut plan: Vec<PlannedEntry<'a>> = Vec::new();
    let mut i: usize = 0;
    assert(entries_of(plan@) =~= files@.take(0).filter(test).map_values(entry)) by {
        reveal(Seq::filter);
    }
    while i < files.len()
        invariant
            i <= files.len(),
            test == adds_plugin_config(),
            entry == (|file: SourceFile| plugin_entry(file)),
            entries_of(plan@) == files@.take(i as int).filter(test).map_values(entry),
            forall|k: int|
                0 <= k < plan@.len() ==> (#[trigger] plan@[k]).kind == EntryKind::PluginConfig,
        decreases files.len() - i,
    {
        let file = &files[i];
        proof {
            assert(files@.take(i + 1) =~= files@.take(i as int).push(*file));
            files@.take(i as int).lemma_filter_push(*file, test);
            let kept = files@.take(i as int).filter(test);
            assert(kept.push(*file).map_values(entry) =~= kept.map_values(entry).push(
                plugin_entry(*file),
            ));
        }
        if is_plugin_config(file.name.as_str(), file.depth) {
            match &file.contents {
                Some(data) => {
                    let ghost before = entries_of(plan@);
                    let a = appended(PLUGIN_FOLDER, file.folder.as_str());
                    let b = appended(a.as_str(), "/");
                    let name = appended(b.as_str(), PLUGIN_CONFIG_FILE);
                    plan.push(PlannedEntry { kind: EntryKind::PluginConfig, name, data });
                    assert(entries_of(plan@) =~= before.push(plugin_entry(*file)));
                },
                None => {},
            }
        }
        i += 1;
    }
    proof {
        assert(files@.take(i as int) =~= files@);
    }
    plan
}

/// Writes the saves into an archive, below `SavedArks/`: every file that is wanted and
/// could be read, under its own name. A file that could not be read is passed over. The
/// call succeeds exactly where every entry goes in.
pub fn add_saves_to_zip(
    zip: &mut ArchiveWriter,
    files: &Vec<SourceFile>,
    include_saves: bool,
    include_map: bool,
    map: &GameMap,
) -> (r: Result<(), ArchiveError>)
    ensures
        exists|trace: WriteTrace|
            {
                &&& #[trigger] trace.tells(*old(zip), save_entries(files@, include_saves, include_map, *map), r is Ok)
                &&& r is Ok ==> *final(zip) == trace.befores.last()
            },
        r is Ok ==> written_entries(*final(zip)) == written_entries(*old(zip)) + save_entries(
            files@,
            include_saves,
            include_map,
            *map,
        ),
        r is Ok ==> entries_fit(save_entries(files@, include_saves, include_map, *map)),
        r matches Err(e) ==> e matches ArchiveError::Entry { kind, closed, detail, .. } && kind
            == EntryKind::SaveFile && closed == says_closed(detail@),
{
    let plan = plan_saves(files, include_saves, include_map, map);
    write_entries(zip, &plan)
}

/// Writes the two settings files into an archive, below `INI Settings/`: each that could be
/// read, `Game.ini` first. A file that is missing or could not be read is passed over and
/// is no error. The call succeeds exactly where every entry goes in.
pub fn add_ini_files_to_zip(
    zip: &mut ArchiveWriter,
    game_ini: &Option<Vec<u8>>,
    game_user_settings_ini: &Option<Vec<u8>>,
) -> (r: Result<(), ArchiveError>)
    ensures
        exists|trace: WriteTrace|
            {
                &&& #[trigger] trace.tells(*old(zip), ini_entries(*game_ini, *game_user_settings_ini), r is Ok)
                &&& r is Ok ==> *final(zip) == trace.befores.last()
            },
        r is Ok ==> written_entries(*final(zip)) == written_entries(*old(zip)) + ini_entries(
            *game_ini,
            *game_user_settings_ini,
        ),
        r is Ok ==> entries_fit(ini_entries(*game_ini, *game_user_settings_ini)),
        r matches Err(e) ==> e matches ArchiveError::Entry { kind, closed, detail, .. } && (kind
            == EntryKind::GameIni || kind == EntryKind::GameUserSettingsIni) && closed
            == says_closed(detail@),
{
    let plan = plan_ini_files(game_ini, game_user_settings_ini);
    write_entries(zip, &plan)
}

/// Writes the plugins' configurations into an archive, below `Plugin/`: the `config.json` of
/// every folder right below the plugins directory, where it could be read, in a folder of
/// the plugin's name. Other files are passed over, and so is a configuration that could
/// not be read. The call succeeds exactly where every entry goes in.
pub fn add_plugin_configs_to_zip(zip: &mut ArchiveWriter, files: &Vec<SourceFile>) -> (r: Result<
    (),
    ArchiveError,
>)
    ensures
        exists|trace: WriteTrace|
            {
                &&& #[trigger] trace.tells(*old(zip), plugin_entries(files@), r is Ok)
                &&& r is Ok ==> *final(zip) == trace.befores.last()
            },
        r is Ok ==> written_entries(*final(zip)) == written_entries(*old(zip)) + plugin_entries(
            files@,
        ),
        r is Ok ==> entries_fit(plugin_entries(files@)),
        r matches Err(e) ==> e matches ArchiveError::Entry { kind, closed, detail, .. } && kind
            == EntryKind::PluginConfig && closed == says_closed(detail@),
{
    let plan = plan_plugin_configs(files);
    write_entries(zip, &plan)
}

impl ArchiveWriter {
    /// A new archive in memory, without entries.
    pub fn begin() -> (zip: ArchiveWriter)
        ensures
            written_entries(zip) == Seq::<Entry>::empty(),
    {
        new_writer()
    }

    /// Ends the archive and hands out its bytes, with the record of what was written
    /// into it. It succeeds exactly where the archive can be finished; the bytes are those
    /// that the zip crate makes of the archive.
    pub fn finish(self) -> (r: Result<FinishedArchive, ArchiveError>)
        ensures
            r is Ok <==> finish_succeeds(self),
            r matches Ok(archive) ==> archive.bytes@ == finished_bytes(self)
                && archive.entries@ == written_entries(self),
            r matches Err(e) ==> e is Finalize,
    {
        let ghost entries = written_entries(self);
        let mut zip = self;
        match finish_writer(&mut zip) {
            Ok(bytes) => Ok(FinishedArchive { bytes, entries: Ghost(entries) }),
            Err(e) => Err(ArchiveError::Finalize { detail: error_text(&e) }),
        }
    }
}

/// The entries of a job's archive, in order: the saves, the settings and the plugins'
/// configurations, each part where the job asks for it.
pub fn plan_backup<'a>(job: &Job, map: &GameMap, sources: &'a BackupSources) -> (plan: Vec<
    PlannedEntry<'a>,
>)
    ensures
        entries_of(plan@) == planned_entries(*job, *map, *sources),
        forall|k: int| 0 <= k < plan@.len() ==> asks_for(*job, (#[trigger] plan@[k]).kind),
{
    let mut plan: Vec<PlannedEntry<'a>> = Vec::new();
    if job.include_saves || job.include_map {
        let mut saves = plan_saves(&sources.saves, job.include_saves, job.include_map, map);
        plan.append(&mut saves);
    }
    let ghost first = plan@;
    if job.include_server_files {
        let mut settings = plan_ini_files(&sources.game_ini, &sources.game_user_settings_ini);
        plan.append(&mut settings);
    }
    let ghost second = plan@;
    if job.include_plugin_configs {
        let mut plugins = plan_plugin_configs(&sources.plugins);
        plan.append(&mut plugins);
    }
    proof {
        assert(entries_of(second) =~= entries_of(first) + entries_of(second.skip(first.len() as int)));
        assert(entries_of(plan@) =~= entries_of(second) + entries_of(
            plan@.skip(second.len() as int),
        ));
        assert(second.skip(first.len() as int) =~= second.subrange(
            first.len() as int,
            second.len() as int,
        ));
        assert(entries_of(plan@) =~= planned_entries(*job, *map, *sources));
    }
    plan
}

/// Builds a job's archive in memory from what was found on disk: the saves, the settings
/// and the plugins' configurations, each part where the job asks for it, in this order.
/// The attempt succeeds exactly where every entry goes into the archive and the archive
/// can then be finished; the bytes are those that the zip crate makes of the archive that
/// holds all the entries. The first entry that does not go in ends the attempt.
pub fn attempt_backup(job: &Job, map: &GameMap, sources: &BackupSources) -> (r: Result<
    FinishedArchive,
    ArchiveError,
>)
    ensures
        exists|trace: WriteTrace|
            {
                &&& written_entries(trace.befores[0]).len() == 0
                &&& #[trigger] trace.follows(
                    trace.befores[0],
                    planned_entries(*job, *map, *sources),
                )
                &&& r is Ok <==> (trace.went_in(
                    planned_entries(*job, *map, *sources),
                    planned_entries(*job, *map, *sources).len() as int,
                ) && finish_succeeds(trace.befores.last()))
                &&& r matches Ok(archive) ==> archive.bytes@ == finished_bytes(
                    trace.befores.last(),
                )
            },
        r matches Ok(archive) ==> archive.entries@ == planned_entries(*job, *map, *sources),
        !entries_fit(planned_entries(*job, *map, *sources)) ==> r is Err,
        r matches Err(e) ==> e is Finalize || (e matches ArchiveError::Entry {
            kind,
            closed,
            detail,
            ..
        } && asks_for(*job, kind) && closed == says_closed(detail@)),
{
    let plan = plan_backup(job, map, sources);
    let mut zip = ArchiveWriter::begin();
    let ghost start = zip;
    let written = write_entries(&mut zip, &plan);
    let ghost trace = choose|trace: WriteTrace|
        {
            &&& #[trigger] trace.tells(start, entries_of(plan@), written is Ok)
            &&& written is Ok ==> zip == trace.befores.last()
        };
    match written {
        Ok(()) => {
            assert(written_entries(zip) =~= planned_entries(*job, *map, *sources));
            zip.finish()
        },
        Err(e) => Err(e),
    }
}

/// What is made of an archive that opened with `count` entries, given how the opening of
/// its first entry went: an archive without entries does not pass, nor one whose first
/// entry cannot be opened.
pub fn integrity_verdict(count: usize, first_entry: Result<(), String>) -> (r: Result<
    (),
    IntegrityError,
>)
    ensures
        count == 0 ==> r matches Err(IntegrityError::Empty),
        count > 0 ==> match first_entry {
            Ok(()) => r is Ok,
            Err(detail) => r matches Err(IntegrityError::FirstEntryUnreadable(d)) && d@
                == detail@,
        },
{
    if count == 0 {
        return Err(IntegrityError::Empty);
    }
    match first_entry {
        Ok(()) => Ok(()),
        Err(detail) => Err(IntegrityError::FirstEntryUnreadable(detail)),
    }
}

/// Checks an archive that was read back: it passes exactly where it opens, holds an entry,
/// and its first entry can be opened.
pub fn verify_zip_integrity(bytes: Vec<u8>) -> (r: Result<(), IntegrityError>)
    ensures
        r is Ok <==> passes(bytes@),
        match listing_of(bytes@) {
            None => r matches Err(IntegrityError::Unreadable(_)),
            Some(names) => if names.len() == 0 {
                r matches Err(IntegrityError::Empty)
            } else if opens_in(bytes@, 0) {
                r is Ok
            } else {
                r matches Err(IntegrityError::FirstEntryUnreadable(_))
            },
        },
{
    let mut archive = match open_archive(bytes) {
        Ok(archive) => archive,
        Err(e) => {
            return Err(IntegrityError::Unreadable(error_text(&e)));
        },
    };
    let count = archive_len(&archive);
    if count == 0 {
        return integrity_verdict(count, Ok(()));
    }
    let first_entry = match open_entry(&mut archive, 0) {
        Ok(()) => Ok(()),
        Err(e) => Err(error_text(&e)),
    };
    integrity_verdict(count, first_entry)
}

/// Writes out why an archive does not pass for complete.
pub fn describe_integrity_error(error: &IntegrityError) -> (r: String)
    ensures
        r@ == match *error {
            IntegrityError::Unreadable(detail) => "Failed to read ZIP archive"@,
            IntegrityError::Empty => "ZIP archive is empty"@,
            IntegrityError::FirstEntryUnreadable(detail) => "Failed to read first entry from ZIP"@,
        },
{
    match error {
        IntegrityError::Unreadable(_) => "Failed to read ZIP archive".to_owned(),
        IntegrityError::Empty => "ZIP archive is empty".to_owned(),
        IntegrityError::FirstEntryUnreadable(_) => "Failed to read first entry from ZIP".to_owned(),
    }
}

} // verus!
