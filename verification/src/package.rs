//! The layout of a package and the assembly of its archive.
//!
//! A package holds the model description at its root and the plugin under
//! `binaries/<platform>/<model-name>.<extension>`.  The archive holds the
//! same two files under the same relative paths, stored without compression.
use vstd::prelude::*;
use vstd::string::*;
use std::io::Cursor;
use zip::ZipWriter;

verus! {

/// An archive in the making: a `zip` writer over an in-memory buffer.
#[verifier::external_body]
pub struct Archive {
    writer: ZipWriter<Cursor<Vec<u8>>>,
}

/// `zip::CompressionMethod`, whose inside is not looked at.
#[verifier::external_type_specification]
#[verifier::external_body]
pub struct ExCompressionMethod(zip::CompressionMethod);

/// The code that the archive format gives to a method of compression, as
/// `CompressionMethod::to_u16` tells it; 0 stands for storing a file as it is.
pub uninterp spec fn method_code(method: zip::CompressionMethod) -> u16;

/// The files of an archive in the making: name and content of each, in the
/// order they were started.
pub uninterp spec fn archive_entries(archive: Archive) -> Seq<(Seq<char>, Seq<u8>)>;

/// The bytes of the finished archive that holds the given files, each
/// stored without compression.
pub uninterp spec fn zip_archive(entries: Seq<(Seq<char>, Seq<u8>)>) -> Seq<u8>;

/// Whether an archive in the making still takes files.  It does from the
/// start, and until a write to it is refused.
pub uninterp spec fn archive_open(archive: Archive) -> bool;

/// No files at all.
pub open spec fn no_files() -> Seq<(Seq<char>, Seq<u8>)> {
    Seq::empty()
}

/// The largest number of bytes that one file of an archive may hold.
pub open spec fn file_limit() -> nat {
    0xffff_ffff
}

/// Whether an archive takes `more` bytes for the file that was started
/// last: it is open, a file has been started, and the file stays within the
/// limit.
pub open spec fn takes(open: bool, entries: Seq<(Seq<char>, Seq<u8>)>, more: nat) -> bool {
    open && entries.len() > 0 && entries.last().1.len() + more <= file_limit()
}

/// `ZipWriter::new` over an empty in-memory buffer: an open archive without
/// files.
#[verifier::external_body]
fn archive_new() -> (archive: Archive)
    ensures
        archive_entries(archive) == no_files(),
        archive_open(archive),
{
    Archive { writer: ZipWriter::new(Cursor::new(Vec::new())) }
}

/// `CompressionMethod::STORE`: the method that stores a file as it is.
#[verifier::external_body]
fn stored_method() -> (method: zip::CompressionMethod)
    ensures
        method_code(method) == 0,
{
    zip::CompressionMethod::STORE
}

/// `ZipWriter::start_file` with default options and the method handed
/// over, which has to be the storing one.  It succeeds exactly on an open
/// archive, which then has one more file, of the given name and still empty.
#[verifier::external_body]
fn archive_start_file(archive: &mut Archive, name: &str, method: zip::CompressionMethod) -> (ok:
    bool)
    requires
        method_code(method) == 0,
    ensures
        ok == archive_open(*old(archive)),
        ok ==> archive_open(*final(archive)),
        ok ==> archive_entries(*final(archive)) == archive_entries(*old(archive)).push(
            (name@, Seq::<u8>::empty()),
        ),
{
    let options = zip::write::FileOptions::default().compression_method(method);
    archive.writer.start_file(name, options).is_ok()
}

/// `Write::write_all` on the archive.  Nothing is written for no bytes, and
/// that succeeds on any archive.  Bytes are taken exactly when the archive
/// is open, a file has been started and the file stays within the limit;
/// they are appended to the file that was started last.
#[verifier::external_body]
fn archive_write(archive: &mut Archive, data: &[u8]) -> (ok: bool)
    ensures
        ok == (data@.len() == 0 || takes(
            archive_open(*old(archive)),
            archive_entries(*old(archive)),
            data@.len(),
        )),
        ok ==> archive_open(*final(archive)) == archive_open(*old(archive)),
        ok && archive_entries(*old(archive)).len() > 0 ==> archive_entries(*final(archive))
            == archive_entries(*old(archive)).drop_last().push(
            (
                archive_entries(*old(archive)).last().0,
                archive_entries(*old(archive)).last().1 + data@,
            ),
        ),
        ok && archive_entries(*old(archive)).len() == 0 ==> archive_entries(*final(archive))
            == archive_entries(*old(archive)),
{
    std::io::Write::write_all(&mut archive.writer, data).is_ok()
}

/// `ZipWriter::finish` and the buffer behind it.  An open archive is
/// finished to the bytes of the archive of the files written; one that a
/// write was refused on yields nothing.
#[verifier::external_body]
fn archive_finish(archive: Archive) -> (bytes: Option<Vec<u8>>)
    ensures
        (bytes is Some) == archive_open(archive),
        bytes matches Some(b) ==> b@ == zip_archive(archive_entries(archive)),
{
    let mut writer = archive.writer;
    writer.finish().ok().map(Cursor::into_inner)
}

/// Two path segments joined by a slash.
pub open spec fn joined(directory: Seq<char>, name: Seq<char>) -> Seq<char> {
    directory + "/"@ + name
}

/// The file name of a plugin: the model's name, a dot and the extension.
pub open spec fn binary_name(model_name: Seq<char>, extension: Seq<char>) -> Seq<char> {
    model_name + "."@ + extension
}

/// The directory of the plugins of a platform, relative to the package root.
pub open spec fn binaries_path(platform: Seq<char>) -> Seq<char> {
    joined("binaries"@, platform)
}

/// The path of the plugin, relative to the package root.
pub open spec fn binary_path(platform: Seq<char>, model_name: Seq<char>, extension: Seq<char>) -> Seq<
    char,
> {
    joined(binaries_path(platform), binary_name(model_name, extension))
}

/// The path of the model description, relative to the package root.
pub open spec fn description_path() -> Seq<char> {
    "modelDescription.xml"@
}

/// Where the parts of a package go, as mathematical data.
pub struct Layout {
    pub root: Seq<char>,
    pub binaries_directory: Seq<char>,
    pub binary_file: Seq<char>,
    pub description_file: Seq<char>,
    pub archive_file: Seq<char>,
}

/// Where the parts of a package go.
#[derive(Clone, Debug)]
pub struct PackageLayout {
    /// The package directory; it is made anew for each run.
    pub root: String,
    /// The directory that takes the plugin.
    pub binaries_directory: String,
    /// The plugin under its packaged name.
    pub binary_file: String,
    /// The model description.
    pub description_file: String,
    /// The archive of the package.
    pub archive_file: String,
}

impl View for PackageLayout {
    type V = Layout;

    open spec fn view(&self) -> Layout {
        Layout {
            root: self.root@,
            binaries_directory: self.binaries_directory@,
            binary_file: self.binary_file@,
            description_file: self.description_file@,
            archive_file: self.archive_file@,
        }
    }
}

/// The layout of the package of a model under an output directory.
pub open spec fn layout_of(
    output: Seq<char>,
    model_name: Seq<char>,
    platform: Seq<char>,
    extension: Seq<char>,
) -> Layout {
    let root = joined(output, model_name);
    Layout {
        root,
        binaries_directory: joined(root, binaries_path(platform)),
        binary_file: joined(root, binary_path(platform, model_name, extension)),
        description_file: joined(root, description_path()),
        archive_file: joined(output, model_name + ".zip"@),
    }
}

/// The files of the archive of a package: the model description first,
/// then the plugin.
pub open spec fn package_entries(
    model_name: Seq<char>,
    platform: Seq<char>,
    extension: Seq<char>,
    description: Seq<u8>,
    artifact: Seq<u8>,
) -> Seq<(Seq<char>, Seq<u8>)> {
    seq![
        (description_path(), description),
        (binary_path(platform, model_name, extension), artifact),
    ]
}

fn join(directory: &str, name: &str) -> (path: String)
    ensures
        path@ == joined(directory@, name@),
{
    let mut path = String::from_str(directory);
    path.append("/");
    path.append(name);
    path
}

/// The file name under which a plugin is packaged.
pub fn binary_file_name(model_name: &str, extension: &str) -> (name: String)
    ensures
        name@ == binary_name(model_name@, extension@),
{
    let mut name = String::from_str(model_name);
    name.append(".");
    name.append(extension);
    name
}

/// The path of the plugin inside a package.
pub fn archive_binary_path(platform: &str, model_name: &str, extension: &str) -> (path: String)
    ensures
        path@ == binary_path(platform@, model_name@, extension@),
{
    let directory = join("binaries", platform);
    let name = binary_file_name(model_name, extension);
    join(directory.as_str(), name.as_str())
}

/// Lays out the package of a model under an output directory.
pub fn plan_package(output: &str, model_name: &str, platform: &str, extension: &str) -> (layout:
    PackageLayout)
    ensures
        layout@ == layout_of(output@, model_name@, platform@, extension@),
{
    let root = join(output, model_name);
    let binaries = join("binaries", platform);
    let binary = archive_binary_path(platform, model_name, extension);
    let mut archive_name = String::from_str(model_name);
    archive_name.append(".zip");
    PackageLayout {
        binaries_directory: join(root.as_str(), binaries.as_str()),
        binary_file: join(root.as_str(), binary.as_str()),
        description_file: join(root.as_str(), "modelDescription.xml"),
        archive_file: join(output, archive_name.as_str()),
        root,
    }
}

/// Whether the two files of a package are within what one file of an
/// archive may hold.
pub open spec fn archivable(description: Seq<u8>, artifact: Seq<u8>) -> bool {
    description.len() <= file_limit() && artifact.len() <= file_limit()
}

/// Assembles the archive of a package.
///
/// The archive holds the model description and the plugin, in this order,
/// under their paths relative to the package root, each stored without
/// compression.  There is an archive exactly when neither file exceeds what
/// a file of an archive may hold.
pub fn build_archive(
    model_name: &str,
    platform: &str,
    extension: &str,
    description: &str,
    artifact: &Vec<u8>,
) -> (archive: Option<Vec<u8>>)
    ensures
        archive is Some <==> archivable(description.spec_bytes(), artifact@),
        archive matches Some(bytes) ==> bytes@ == zip_archive(
            package_entries(
                model_name@,
                platform@,
                extension@,
                description.spec_bytes(),
                artifact@,
            ),
        ),
{
    let mut writer = archive_new();
    let path = archive_binary_path(platform, model_name, extension);
    let _ = archive_start_file(&mut writer, "modelDescription.xml", stored_method());
    if !archive_write(&mut writer, description.as_bytes()) {
        return None;
    }
    let _ = archive_start_file(&mut writer, path.as_str(), stored_method());
    if !archive_write(&mut writer, artifact.as_slice()) {
        return None;
    }
    proof {
        assert(archive_entries(writer) =~= package_entries(
            model_name@,
            platform@,
            extension@,
            description.spec_bytes(),
            artifact@,
        ));
    }
    archive_finish(writer)
}

} // verus!
