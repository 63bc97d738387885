//! The answers of the multipart upload endpoint, and its limits.

use vstd::prelude::*;
use crate::text::{decimal, push_decimal};

verus! {

/// How many images one multipart request may announce.
pub const MAX_IMG_COUNT: u32 = 25;

/// The largest size of one uploaded image, in bytes (32 MiB).
pub const IMAGE_SIZE_LIMIT: u64 = 33554432;

/// The text of the refusal of a request announcing `count` images.
pub open spec fn too_many_images_text(count: nat) -> Seq<char> {
    "Нельзя загружать больше "@ + decimal(count) + " изображений за один раз."@
}

/// The refusal of a request that announces `img_count` images, when that is
/// more than `MAX_IMG_COUNT`; `None` when the count is accepted.
pub fn too_many_images(img_count: u32) -> (res: Option<String>)
    ensures
        img_count > MAX_IMG_COUNT <==> res is Some,
        res matches Some(msg) ==> msg@ == too_many_images_text(img_count as nat),
{
    if img_count > MAX_IMG_COUNT {
        let mut msg = String::from_str("Нельзя загружать больше ");
        push_decimal(&mut msg, img_count as u64);
        msg.append(" изображений за один раз.");
        Some(msg)
    } else {
        None
    }
}

/// Why reading a multipart request failed.
#[derive(Clone, Copy, Debug, PartialEq, Eq, Structural)]
pub enum MultipartFailure {
    /// A file is larger than its limit.
    DataTooLarge,
    /// A file is not of an image type.
    DataType,
    /// Any other failure.
    Other,
}

/// The answer to a multipart request that could not be read.
pub open spec fn failure_text(f: MultipartFailure) -> Seq<char> {
    match f {
        MultipartFailure::DataTooLarge => "Размер файла слишком большой."@,
        MultipartFailure::DataType => "Вы отправили не изображение."@,
        MultipartFailure::Other => "Произошла ошибка при загрузке файла."@,
    }
}

impl MultipartFailure {
    /// The answer to a multipart request that failed this way.
    pub fn message(&self) -> (res: String)
        ensures
            res@ == failure_text(*self),
    {
        match self {
            MultipartFailure::DataTooLarge => String::from_str("Размер файла слишком большой."),
            MultipartFailure::DataType => String::from_str("Вы отправили не изображение."),
            MultipartFailure::Other => String::from_str("Произошла ошибка при загрузке файла."),
        }
    }
}

/// The answer to a multipart request without any image.
pub fn no_images_message() -> (res: String)
    ensures
        res@ == "Вы не отправили ни одного файла, загружать нечего."@,
{
    String::from_str("Вы не отправили ни одного файла, загружать нечего.")
}

} // verus!
