//! The four places that a run works on, and the names of the copies.

use crate::fliker_config::photo_item::PhotoItem;
use crate::paths::{extension, file_name, path_extension, path_file_name, path_from, path_text};
use std::path::PathBuf;
use vstd::pervasive::unreached;
use vstd::prelude::*;
use vstd::string::StringExecFns;

verus! {

/// Where the catalog, the photo records and the images lie, and where the
/// album goes.
pub struct Config {
    pub album_file_path: PathBuf,
    pub image_dir_path: PathBuf,
    pub out_album_dir_path: PathBuf,
    pub images_medatada_dir_path: PathBuf,
}

/// Reads the four paths from a command line: after the program's name come
/// the catalog, the directory of photo records, the directory of images and
/// the output directory, in this order. Further arguments are ignored.
pub fn extract_args(args: &Vec<String>) -> (config: Config)
    requires
        args@.len() >= 5,
    ensures
        path_text(config.album_file_path) == Some(args@[1]@),
        path_text(config.images_medatada_dir_path) == Some(args@[2]@),
        path_text(config.image_dir_path) == Some(args@[3]@),
        path_text(config.out_album_dir_path) == Some(args@[4]@),
{
    Config {
        album_file_path: path_from(&args[1]),
        image_dir_path: path_from(&args[3]),
        out_album_dir_path: path_from(&args[4]),
        images_medatada_dir_path: path_from(&args[2]),
    }
}

/// The name under which a file is copied: the photo's name, a dot and the
/// file's extension (nothing after the dot where it has none) if the photo
/// has a record; else the file's own name. `None` where the part of the
/// path that is needed is missing or is not valid Unicode.
pub open spec fn new_file_name(current_file: PathBuf, name: Option<Seq<char>>) -> Option<
    Seq<char>,
> {
    match name {
        Some(name) => match path_extension(current_file) {
            None => Some(name + seq!['.']),
            Some(Some(ext)) => Some(name + seq!['.'] + ext),
            Some(None) => None,
        },
        None => match path_file_name(current_file) {
            Some(Some(own)) => Some(own),
            _ => None,
        },
    }
}

/// The name of the photo that a record describes, if there is a record.
pub open spec fn photo_name(image_metadata: Option<PhotoItem>) -> Option<Seq<char>> {
    match image_metadata {
        Some(meta) => Some(meta.name@),
        None => None,
    }
}

/// The name for the copy of a file, or `None` where the path does not give
/// one.
pub fn try_compute_new_file_name(
    current_file: &PathBuf,
    image_metadata: &Option<PhotoItem>,
) -> (new_name: Option<String>)
    ensures
        match new_name {
            Some(text) => new_file_name(*current_file, photo_name(*image_metadata)) == Some(
                text@,
            ),
            None => new_file_name(*current_file, photo_name(*image_metadata)) is None,
        },
{
    proof {
        reveal_strlit(".");
    }
    match image_metadata {
        Some(meta) => {
            let stem: String = meta.name.clone().concat(".");
            assert(stem@ =~= meta.name@ + seq!['.']);
            match extension(current_file) {
                None => Some(stem),
                Some(Some(ext)) => Some(stem.concat(ext.as_str())),
                Some(None) => None,
            }
        },
        None => match file_name(current_file) {
            Some(Some(own)) => Some(own),
            _ => None,
        },
    }
}

/// The name for the copy of a file whose path gives one.
pub fn compute_new_file_name(current_file: &PathBuf, image_metadata: &Option<PhotoItem>) -> (new_name:
    String)
    requires
        new_file_name(*current_file, photo_name(*image_metadata)) is Some,
    ensures
        new_file_name(*current_file, photo_name(*image_metadata)) == Some(new_name@),
{
    match try_compute_new_file_name(current_file, image_metadata) {
        Some(text) => text,
        None => unreached(),
    }
}

} // verus!
