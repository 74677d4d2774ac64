//! Media and attachment records carried by messages.
use vstd::prelude::*;

use crate::chat::{copy_opt_string, Integer};

verus! {

/// One size of a photo, or a file or sticker thumbnail.
#[derive(Debug, PartialEq)]
pub struct PhotoSize {
    pub file_id: String,
    pub width: Integer,
    pub height: Integer,
    pub file_size: Option<Integer>,
}

impl Clone for PhotoSize {
    fn clone(&self) -> (r: Self)
        ensures
            r == *self,
    {
        PhotoSize {
            file_id: self.file_id.clone(),
            width: self.width,
            height: self.height,
            file_size: self.file_size,
        }
    }
}

/// Copies an optional thumbnail.
pub fn copy_opt_photo_size(p: &Option<PhotoSize>) -> (r: Option<PhotoSize>)
    ensures
        r == *p,
{
    match p {
        Some(v) => Some(v.clone()),
        None => None,
    }
}

/// Copies a list of photo sizes element by element.
pub fn copy_photo_sizes(v: &Vec<PhotoSize>) -> (r: Vec<PhotoSize>)
    ensures
        r@ == v@,
{
    let mut r: Vec<PhotoSize> = Vec::new();
    let mut i: usize = 0;
    while i < v.len()
        invariant
            i <= v@.len(),
            r@ == v@.subrange(0, i as int),
        decreases v@.len() - i,
    {
        r.push(v[i].clone());
        i = i + 1;
    }
    assert(v@.subrange(0, v@.len() as int) == v@);
    r
}

/// An audio file to be treated as music.
#[derive(Debug, PartialEq)]
pub struct Audio {
    pub file_id: String,
    pub duration: Integer,
    pub performer: Option<String>,
    pub title: Option<String>,
    pub mime_type: Option<String>,
    pub file_size: Option<Integer>,
}

impl Clone for Audio {
    fn clone(&self) -> (r: Self)
        ensures
            r == *self,
    {
        Audio {
            file_id: self.file_id.clone(),
            duration: self.duration,
            performer: copy_opt_string(&self.performer),
            title: copy_opt_string(&self.title),
            mime_type: copy_opt_string(&self.mime_type),
            file_size: self.file_size,
        }
    }
}

/// A general file.
#[derive(Debug, PartialEq)]
pub struct Document {
    pub file_id: String,
    pub thumb: Option<PhotoSize>,
    pub file_name: Option<String>,
    pub mime_type: Option<String>,
    pub file_size: Option<Integer>,
}

impl Clone for Document {
    fn clone(&self) -> (r: Self)
        ensures
            r == *self,
    {
        Document {
            file_id: self.file_id.clone(),
            thumb: copy_opt_photo_size(&self.thumb),
            file_name: copy_opt_string(&self.file_name),
            mime_type: copy_opt_string(&self.mime_type),
            file_size: self.file_size,
        }
    }
}

/// A sticker.
#[derive(Debug, PartialEq)]
pub struct Sticker {
    pub file_id: String,
    pub width: Integer,
    pub height: Integer,
    pub thumb: Option<PhotoSize>,
    pub emoji: Option<String>,
    pub file_size: Option<Integer>,
}

impl Clone for Sticker {
    fn clone(&self) -> (r: Self)
        ensures
            r == *self,
    {
        Sticker {
            file_id: self.file_id.clone(),
            width: self.width,
            height: self.height,
            thumb: copy_opt_photo_size(&self.thumb),
            emoji: copy_opt_string(&self.emoji),
            file_size: self.file_size,
        }
    }
}

/// A video file.
#[derive(Debug, PartialEq)]
pub struct Video {
    pub file_id: String,
    pub width: Integer,
    pub height: Integer,
    pub duration: Integer,
    pub thumb: Option<PhotoSize>,
    pub mime_type: Option<String>,
    pub file_size: Option<Integer>,
}

impl Clone for Video {
    fn clone(&self) -> (r: Self)
        ensures
            r == *self,
    {
        Video {
            file_id: self.file_id.clone(),
            width: self.width,
            height: self.height,
            duration: self.duration,
            thumb: copy_opt_photo_size(&self.thumb),
            mime_type: copy_opt_string(&self.mime_type),
            file_size: self.file_size,
        }
    }
}

/// A voice note.
#[derive(Debug, PartialEq)]
pub struct Voice {
    pub file_id: String,
    pub duration: Integer,
    pub mime_type: Option<String>,
    pub file_size: Option<Integer>,
}

impl Clone for Voice {
    fn clone(&self) -> (r: Self)
        ensures
            r == *self,
    {
        Voice {
            file_id: self.file_id.clone(),
            duration: self.duration,
            mime_type: copy_opt_string(&self.mime_type),
            file_size: self.file_size,
        }
    }
}

/// A phone contact.
#[derive(Debug, PartialEq)]
pub struct Contact {
    pub phone_number: String,
    pub first_name: String,
    pub last_name: Option<String>,
    pub user_id: Option<Integer>,
}

impl Clone for Contact {
    fn clone(&self) -> (r: Self)
        ensures
            r == *self,
    {
        Contact {
            phone_number: self.phone_number.clone(),
            first_name: self.first_name.clone(),
            last_name: copy_opt_string(&self.last_name),
            user_id: self.user_id,
        }
    }
}

/// A point on the map. Each coordinate is held as the bit pattern of its
/// IEEE-754 double (`f64::to_bits`), so that it passes through unchanged.
#[derive(Debug, Clone, Copy, PartialEq, Eq, Structural)]
pub struct Location {
    pub longitude_bits: u64,
    pub latitude_bits: u64,
}

/// A venue.
#[derive(Debug, PartialEq)]
pub struct Venue {
    pub location: Location,
    pub title: String,
    pub address: String,
    pub foursquare_id: Option<String>,
}

impl Clone for Venue {
    fn clone(&self) -> (r: Self)
        ensures
            r == *self,
    {
        Venue {
            location: self.location,
            title: self.title.clone(),
            address: self.address.clone(),
            foursquare_id: copy_opt_string(&self.foursquare_id),
        }
    }
}

/// A user's profile pictures.
#[derive(Debug, Clone, PartialEq)]
pub struct UserProfilePhotos {
    pub total_count: Integer,
    pub photos: Vec<Vec<PhotoSize>>,
}

/// A file ready to be downloaded.
#[derive(Debug, Clone, PartialEq)]
pub struct File {
    pub file_id: String,
    pub file_size: Option<Integer>,
    pub file_path: Option<String>,
}

} // verus!
