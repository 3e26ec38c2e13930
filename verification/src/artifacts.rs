//! The file names of what the tools leave behind.  Other programs find the
//! files by these names, so each is fixed to the character.

use crate::pkg_config::{PackageFields, PackageFieldsView};
use crate::text::{concat2, concat3, decimal, decimal_string};
use vstd::prelude::*;
use vstd::string::*;

verus! {

/// `<codename>-<arch>.tar.gz`, the cached chroot.
pub open spec fn cache_file_name(codename: Seq<char>, arch: Seq<char>) -> Seq<char> {
    codename + "-"@ + arch + ".tar.gz"@
}

/// `<name>_<version>-<revision>_<arch>`, what the names of the built
/// artifacts begin with.
pub open spec fn artifact_stem(fields: PackageFieldsView, arch: Seq<char>) -> Seq<char> {
    fields.package_name + "_"@ + fields.version_number + "-"@ + fields.revision_number + "_"@
        + arch
}

/// `<name>_<version>-<revision>_<arch>.deb`, the binary package.
pub open spec fn deb_file_name(fields: PackageFieldsView, arch: Seq<char>) -> Seq<char> {
    artifact_stem(fields, arch) + ".deb"@
}

/// `<name>_<version>-<revision>_<arch>.changes`, the description of the
/// upload.
pub open spec fn changes_file_name(fields: PackageFieldsView, arch: Seq<char>) -> Seq<char> {
    artifact_stem(fields, arch) + ".changes"@
}

/// `autopkgtest-<codename>.img`, the virtual machine image that the
/// regression tests run in.
pub open spec fn image_file_name(codename: Seq<char>) -> Seq<char> {
    "autopkgtest-"@ + codename + ".img"@
}

/// `temp_<n>`, with `n` in base ten: the scratch directory of one chroot
/// creation.
pub open spec fn temp_dir_name(n: u32) -> Seq<char> {
    "temp_"@ + decimal(n as nat)
}

pub fn make_cache_file_name(codename: &str, arch: &str) -> (name: String)
    ensures
        name@ == cache_file_name(codename@, arch@),
{
    let mut name = concat3(codename, "-", arch);
    name.append(".tar.gz");
    name
}

fn make_artifact_stem(fields: &PackageFields, arch: &str) -> (stem: String)
    ensures
        stem@ == artifact_stem(fields@, arch@),
{
    let mut stem = concat3(fields.package_name.as_str(), "_", fields.version_number.as_str());
    stem.append("-");
    stem.append(fields.revision_number.as_str());
    stem.append("_");
    stem.append(arch);
    stem
}

pub fn make_deb_file_name(fields: &PackageFields, arch: &str) -> (name: String)
    ensures
        name@ == deb_file_name(fields@, arch@),
{
    let mut name = make_artifact_stem(fields, arch);
    name.append(".deb");
    name
}

pub fn make_changes_file_name(fields: &PackageFields, arch: &str) -> (name: String)
    ensures
        name@ == changes_file_name(fields@, arch@),
{
    let mut name = make_artifact_stem(fields, arch);
    name.append(".changes");
    name
}

pub fn make_image_file_name(codename: &str) -> (name: String)
    ensures
        name@ == image_file_name(codename@),
{
    concat3("autopkgtest-", codename, ".img")
}

pub fn make_temp_dir_name(n: u32) -> (name: String)
    ensures
        name@ == temp_dir_name(n),
{
    let digits = decimal_string(n);
    concat2("temp_", digits.as_str())
}

} // verus!
