use vstd::prelude::*;

verus! {

/// One bucket of the store.
#[derive(Debug, PartialEq, Eq)]
pub struct BucketItem {
    pub name: String,
}

impl Clone for BucketItem {
    fn clone(&self) -> (r: Self)
        ensures
            r == *self,
    {
        BucketItem { name: self.name.clone() }
    }
}

/// One child of a listing: a directory (common prefix) or a file.
#[derive(Debug, PartialEq, Eq)]
pub enum ObjectItem {
    Dir { name: String },
    File { name: String, size_byte: usize, last_modified: String },
}

impl ObjectItem {
    pub open spec fn spec_name(&self) -> Seq<char> {
        match self {
            ObjectItem::Dir { name } => name@,
            ObjectItem::File { name, .. } => name@,
        }
    }

    pub fn name(&self) -> (r: &String)
        ensures
            r@ == self.spec_name(),
    {
        match self {
            ObjectItem::Dir { name } => name,
            ObjectItem::File { name, .. } => name,
        }
    }
}

impl Clone for ObjectItem {
    fn clone(&self) -> (r: Self)
        ensures
            r == *self,
    {
        match self {
            ObjectItem::Dir { name } => ObjectItem::Dir { name: name.clone() },
            ObjectItem::File { name, size_byte, last_modified } => ObjectItem::File {
                name: name.clone(),
                size_byte: *size_byte,
                last_modified: last_modified.clone(),
            },
        }
    }
}

/// Extended metadata of one object.
#[derive(Debug, PartialEq, Eq)]
pub struct FileDetail {
    pub name: String,
    pub size_byte: usize,
    pub last_modified: String,
    pub e_tag: String,
    pub content_type: String,
    pub storage_class: String,
    pub key: String,
    pub s3_uri: String,
    pub arn: String,
    pub object_url: String,
}

impl Clone for FileDetail {
    fn clone(&self) -> (r: Self)
        ensures
            r == *self,
    {
        FileDetail {
            name: self.name.clone(),
            size_byte: self.size_byte,
            last_modified: self.last_modified.clone(),
            e_tag: self.e_tag.clone(),
            content_type: self.content_type.clone(),
            storage_class: self.storage_class.clone(),
            key: self.key.clone(),
            s3_uri: self.s3_uri.clone(),
            arn: self.arn.clone(),
            object_url: self.object_url.clone(),
        }
    }
}

/// One version of an object, in the order the store returned them.
#[derive(Debug, PartialEq, Eq)]
pub struct FileVersion {
    pub version_id: String,
    pub size_byte: usize,
    pub last_modified: String,
    pub is_latest: bool,
}

impl Clone for FileVersion {
    fn clone(&self) -> (r: Self)
        ensures
            r == *self,
    {
        FileVersion {
            version_id: self.version_id.clone(),
            size_byte: self.size_byte,
            last_modified: self.last_modified.clone(),
            is_latest: self.is_latest,
        }
    }
}

/// The downloaded bytes of an object.
#[derive(Debug, PartialEq, Eq)]
pub struct Object {
    pub bytes: Vec<u8>,
}

/// A bucket name and the directory segments below it: names any node of the hierarchy.
#[derive(Debug, PartialEq, Eq)]
pub struct ObjectKey {
    pub bucket_name: String,
    pub object_path: Vec<String>,
}

/// What identifies a node: the bucket name and the segment names, as text.
pub type KeyView = (Seq<char>, Seq<Seq<char>>);

pub open spec fn segments_view(s: Seq<String>) -> Seq<Seq<char>> {
    s.map_values(|x: String| x@)
}

impl View for ObjectKey {
    type V = KeyView;

    open spec fn view(&self) -> KeyView {
        (self.bucket_name@, segments_view(self.object_path@))
    }
}

/// Copies a list of strings, keeping every element.
pub fn copy_strings(v: &Vec<String>) -> (r: Vec<String>)
    ensures
        r@ == v@,
{
    let mut r: Vec<String> = Vec::new();
    let mut i: usize = 0;
    while i < v.len()
        invariant
            i <= v.len(),
            r@ == v@.subrange(0, i as int),
        decreases v.len() - i,
    {
        r.push(v[i].clone());
        i = i + 1;
    }
    assert(r@ =~= v@);
    r
}

impl Clone for ObjectKey {
    fn clone(&self) -> (r: Self)
        ensures
            r@ == self@,
    {
        ObjectKey { bucket_name: self.bucket_name.clone(), object_path: copy_strings(&self.object_path) }
    }
}

impl ObjectKey {
    /// Tells whether two keys name the same node.
    pub fn same_as(&self, other: &ObjectKey) -> (r: bool)
        ensures
            r == (self@ == other@),
    {
        if self.bucket_name != other.bucket_name {
            return false;
        }
        if self.object_path.len() != other.object_path.len() {
            assert(segments_view(self.object_path@).len() != segments_view(other.object_path@).len());
            return false;
        }
        let mut i: usize = 0;
        while i < self.object_path.len()
            invariant
                i <= self.object_path.len(),
                self.object_path.len() == other.object_path.len(),
                forall|j: int| 0 <= j < i ==> self.object_path@[j]@ == other.object_path@[j]@,
            decreases self.object_path.len() - i,
        {
            if self.object_path[i] != other.object_path[i] {
                assert(segments_view(self.object_path@)[i as int] != segments_view(
                    other.object_path@,
                )[i as int]);
                return false;
            }
            i = i + 1;
        }
        assert(segments_view(self.object_path@) =~= segments_view(other.object_path@));
        true
    }
}

/// An error reported to the user, by its message.
#[derive(Debug, PartialEq, Eq)]
pub struct AppError {
    pub msg: String,
}

impl Clone for AppError {
    fn clone(&self) -> (r: Self)
        ensures
            r == *self,
    {
        AppError { msg: self.msg.clone() }
    }
}

} // verus!
