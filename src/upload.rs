//! The services that a captured image can be uploaded to.
use vstd::prelude::*;

verus! {

/// Choose which image upload service should be used by default when
/// pressing "Upload Online"
#[derive(Copy, Clone, Debug, PartialEq, Eq, Structural, PartialOrd, Ord, Hash)]
pub enum ImageUploadService {
    /// Website: `https://0x0.st`
    TheNullPointer,
}

impl ImageUploadService {
    /// The base URL of the service, where image files are posted.
    pub open spec fn spec_post_url(self) -> Seq<char> {
        match self {
            ImageUploadService::TheNullPointer => "https://0x0.st"@,
        }
    }

    /// The base URL where image files should be uploaded
    pub fn post_url(self) -> (r: &'static str)
        ensures
            r@ == self.spec_post_url(),
    {
        match self {
            ImageUploadService::TheNullPointer => "https://0x0.st",
        }
    }
}

impl Default for ImageUploadService {
    fn default() -> (r: ImageUploadService)
        ensures
            r == ImageUploadService::TheNullPointer,
    {
        ImageUploadService::TheNullPointer
    }
}

} // verus!
