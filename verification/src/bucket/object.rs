//! Naming and checking the images that go to object storage.

use crate::db::Db;
use crate::error::AppError;
use crate::validation::image::{
    banner_outcome, held, icon_outcome, is_banner_valid, is_icon_valid, stored_name,
};
use crate::validation::ValidationErrorView;
use bytes::Bytes;
use vstd::prelude::*;
use vstd::string::StringExecFns;

verus! {

/// An image that is ready to be sent to object storage.
#[derive(Clone, Debug, PartialEq)]
pub struct Upload {
    /// The name of the object in the bucket.
    pub object_name: String,
    /// The media type to send it with.
    pub content_type: String,
}

/// The name of an object: its folder, the owner's identifier, a hyphen and
/// the stored name of the file.
pub open spec fn object_name(folder: Seq<char>, id: Seq<char>, file: Seq<char>) -> Seq<char> {
    folder + "/"@ + id + "-"@ + file
}

/// What preparing an upload gives: the object's name and media type, or the
/// reason why the image was turned down.
pub open spec fn prepared(
    r: Result<Upload, AppError>,
    checked: Result<Seq<char>, ValidationErrorView>,
    name: Seq<char>,
) -> bool {
    match r {
        Ok(upload) => checked == Ok::<Seq<char>, ValidationErrorView>(upload.content_type@)
            && upload.object_name@ == name,
        Err(AppError::Validation(error)) => checked == Err::<Seq<char>, ValidationErrorView>(
            error@,
        ),
        Err(_) => false,
    }
}

fn name_object(folder: &str, id: &str, file: &str) -> (r: String)
    ensures
        r@ == object_name(folder@, id@, file@),
{
    let mut name = folder.to_owned();
    name.append("/");
    name.append(id);
    name.append("-");
    name.append(file);
    name
}

impl Db {
    /// Checks an icon and names the object that it is to be stored as:
    /// `icon/`, the owner's identifier, a hyphen and the stored file name.
    /// An image that cannot be an icon gives the validation error.
    pub fn upload_icon(&self, data: &Bytes, filename: String, id: &str) -> (r: Result<Upload, AppError>)
        ensures
            prepared(
                r,
                icon_outcome(held(*data)),
                object_name("icon"@, id@, stored_name(filename@, held(*data))),
            ),
    {
        let mut filename = filename;
        match is_icon_valid(&mut filename, data) {
            Ok(content_type) => Ok(
                Upload { object_name: name_object("icon", id, filename.as_str()), content_type },
            ),
            Err(error) => Err(AppError::Validation(error)),
        }
    }

    /// Checks a banner and names the object that it is to be stored as:
    /// `banner/`, the owner's identifier, a hyphen and the stored file name.
    /// Bytes that are no image of a known format give the validation error.
    pub fn upload_banner(&self, data: &Bytes, filename: String, id: &str) -> (r: Result<
        Upload,
        AppError,
    >)
        ensures
            prepared(
                r,
                banner_outcome(held(*data)),
                object_name("banner"@, id@, stored_name(filename@, held(*data))),
            ),
    {
        let mut filename = filename;
        match is_banner_valid(&mut filename, data) {
            Ok(content_type) => Ok(
                Upload { object_name: name_object("banner", id, filename.as_str()), content_type },
            ),
            Err(error) => Err(AppError::Validation(error)),
        }
    }
}

} // verus!
