use vstd::prelude::*;

verus! {

/// Why an upload was refused or failed.
pub struct UploadError {
    pub message: String,
}

impl UploadError {
    /// The error's message, as it is displayed.
    pub fn to_string(&self) -> (s: String)
        ensures
            s@ == self.message@,
    {
        self.message.clone()
    }
}

/// The largest file accepted, in bytes (10 MiB).
pub const MAX_FILE_SIZE: u64 = 10485760;

/// What a multipart upload carried: the size of the received file in bytes
/// and the file name the client gave, if any.
pub struct UploadedFile {
    pub size: usize,
    pub file_name: Option<String>,
}

/// Where an accepted upload goes: the file's new name, and its path
/// relative to the static root, which is also what the client is told.
pub struct UploadPlan {
    pub file_name: String,
    pub relative_path: String,
}

pub open spec fn msg_empty_file() -> Seq<char> {
    "The uploaded file cannot be of size zero bytes."@
}

pub open spec fn msg_file_too_large() -> Seq<char> {
    "The uploaded file is too large. Maximum size should be 10485760 bytes."@
}

pub open spec fn msg_move_failed() -> Seq<char> {
    "Could not update the logo, Error occurred while uploading!"@
}

/// Whether a file of `size` bytes is accepted.
pub open spec fn size_accepted(size: nat) -> bool {
    0 < size <= MAX_FILE_SIZE
}

/// The extension of a file name: what follows its last dot, or the whole
/// name when it has no dot.
pub open spec fn extension(name: Seq<char>) -> Seq<char>
    decreases name.len(),
{
    if name.len() == 0 {
        name
    } else if name.last() == '.' {
        Seq::empty()
    } else {
        extension(name.drop_last()).push(name.last())
    }
}

/// The stored file's name: the chosen name, a dot, and the uploaded file's extension.
pub open spec fn stored_name(name: Seq<char>, original: Seq<char>) -> Seq<char> {
    name + "."@ + extension(original)
}

/// The stored file's path relative to the static root.
pub open spec fn stored_path(path_to: Seq<char>, name: Seq<char>, original: Seq<char>) -> Seq<char> {
    path_to + "/"@ + stored_name(name, original)
}

/// The extension is a suffix of the name, holds no dot, and is preceded
/// by a dot whenever it is not the whole name.
pub proof fn extension_is_last_segment(name: Seq<char>)
    ensures
        extension(name).len() <= name.len(),
        extension(name) == name.subrange(name.len() - extension(name).len(), name.len() as int),
        !extension(name).contains('.'),
        extension(name).len() < name.len() ==> name[name.len() - extension(name).len() - 1]
            == '.',
    decreases name.len(),
{
    if name.len() == 0 {
    } else if name.last() == '.' {
    } else {
        let rest = name.drop_last();
        extension_is_last_segment(rest);
        let e = extension(rest);
        assert(extension(name) == e.push(name.last()));
        assert(extension(name) =~= name.subrange(
            name.len() - extension(name).len(),
            name.len() as int,
        ));
        assert forall|k: int| 0 <= k < extension(name).len() implies extension(name)[k] != '.' by {
            if k < e.len() {
                assert(!e.contains('.'));
                assert(extension(name)[k] == e[k]);
            }
        }
        if extension(name).len() < name.len() {
            assert(name[name.len() - extension(name).len() - 1] == rest[rest.len() - e.len()
                - 1]);
        }
    }
}

/// Text that ends with a dot followed by `ext`, where `ext` holds no dot,
/// has the extension `ext`.
proof fn extension_after_dot(prefix: Seq<char>, ext: Seq<char>)
    requires
        !ext.contains('.'),
    ensures
        extension(prefix + "."@ + ext) == ext,
    decreases ext.len(),
{
    reveal_strlit(".");
    let s = prefix + "."@ + ext;
    if ext.len() == 0 {
        assert(s.last() == '.');
    } else {
        let shorter = ext.drop_last();
        assert(!shorter.contains('.')) by {
            if shorter.contains('.') {
                let k = choose|k: int| 0 <= k < shorter.len() && shorter[k] == '.';
                assert(ext[k] == '.');
            }
        }
        extension_after_dot(prefix, shorter);
        assert(s.drop_last() =~= prefix + "."@ + shorter);
        assert(s.last() == ext.last());
        assert(ext.last() != '.') by {
            assert(ext[ext.len() - 1] == ext.last());
        }
        assert(extension(s) == extension(s.drop_last()).push(s.last()));
        assert(shorter.push(ext.last()) =~= ext);
    }
}

/// A stored file keeps the extension of the uploaded file.
pub proof fn stored_name_keeps_extension(name: Seq<char>, original: Seq<char>)
    ensures
        extension(stored_name(name, original)) == extension(original),
{
    extension_is_last_segment(original);
    extension_after_dot(name, extension(original));
}

/// The stored name is the whole chosen name, a dot, and then the upload's
/// extension; the stored path is the directory, a slash, and the stored name.
pub proof fn stored_name_starts_with_name(name: Seq<char>, original: Seq<char>, path_to: Seq<char>)
    ensures
        stored_name(name, original).len() == name.len() + 1 + extension(original).len(),
        stored_name(name, original).subrange(0, name.len() as int) == name,
        stored_name(name, original)[name.len() as int] == '.',
        stored_name(name, original).subrange(
            name.len() + 1int,
            stored_name(name, original).len() as int,
        ) == extension(original),
        stored_path(path_to, name, original).subrange(0, path_to.len() as int) == path_to,
        stored_path(path_to, name, original)[path_to.len() as int] == '/',
        stored_path(path_to, name, original).subrange(
            path_to.len() + 1int,
            stored_path(path_to, name, original).len() as int,
        ) == stored_name(name, original),
{
    reveal_strlit(".");
    reveal_strlit("/");
    let n = stored_name(name, original);
    assert(n.subrange(0, name.len() as int) =~= name);
    assert(n.subrange(name.len() + 1int, n.len() as int) =~= extension(original));
    let p = stored_path(path_to, name, original);
    assert(p.subrange(0, path_to.len() as int) =~= path_to);
    assert(p.subrange(path_to.len() + 1int, p.len() as int) =~= n);
}

/// The extension of `name`: what follows its last dot, or all of it when
/// it has no dot.
pub fn file_extension(name: &str) -> (ext: String)
    ensures
        ext@ == extension(name@),
        ext@.len() <= name@.len(),
        ext@ == name@.subrange(name@.len() - ext@.len(), name@.len() as int),
        !ext@.contains('.'),
        ext@.len() < name@.len() ==> name@[name@.len() - ext@.len() - 1] == '.',
{
    let len = name.unicode_len();
    let mut start = len;
    assert(name@.subrange(0, len as int) =~= name@);
    assert(name@.subrange(len as int, len as int) =~= Seq::<char>::empty());
    while start > 0 && name.get_char(start - 1) != '.'
        invariant
            len == name@.len(),
            start <= len,
            extension(name@) == extension(name@.subrange(0, start as int)) + name@.subrange(
                start as int,
                len as int,
            ),
        decreases start,
    {
        proof {
            let pre = name@.subrange(0, start as int);
            assert(pre.drop_last() =~= name@.subrange(0, start - 1));
            assert(pre.last() == name@[start - 1]);
            assert(name@.subrange(start - 1, len as int) =~= seq![name@[start - 1]]
                + name@.subrange(start as int, len as int));
            assert(extension(pre) == extension(pre.drop_last()).push(pre.last()));
            assert(extension(pre.drop_last()).push(pre.last()) + name@.subrange(
                start as int,
                len as int,
            ) =~= extension(pre.drop_last()) + name@.subrange(start - 1, len as int));
        }
        start = start - 1;
    }
    proof {
        let pre = name@.subrange(0, start as int);
        if start > 0 {
            assert(pre.last() == '.');
            assert(extension(pre) == Seq::<char>::empty());
        } else {
            assert(pre.len() == 0);
        }
        assert(extension(name@) =~= name@.subrange(start as int, len as int));
    }
    proof {
        extension_is_last_segment(name@);
    }
    String::from_str(name.substring_char(start, len))
}

/// Checks an upload and decides where it goes: a file of zero bytes or of
/// more than `MAX_FILE_SIZE` bytes is refused; otherwise it is stored as
/// `name` with the uploaded file's extension, under `path_to`.
pub fn plan_upload(file: &UploadedFile, name: &str, path_to: &str) -> (r: Result<UploadPlan, UploadError>)
    requires
        size_accepted(file.size as nat) ==> file.file_name is Some,
    ensures
        file.size == 0 ==> (r matches Err(e) && e.message@ == msg_empty_file()),
        file.size > MAX_FILE_SIZE ==> (r matches Err(e) && e.message@ == msg_file_too_large()),
        size_accepted(file.size as nat) ==> (r matches Ok(p) && p.file_name@ == stored_name(
            name@,
            file.file_name->0@,
        ) && p.relative_path@ == stored_path(path_to@, name@, file.file_name->0@)),
        size_accepted(file.size as nat) ==> (r matches Ok(p) && p.file_name@ == name@ + "."@
            + extension(file.file_name->0@) && p.relative_path@ == path_to@ + "/"@
            + p.file_name@),
        r is Ok <==> size_accepted(file.size as nat),
{
    if file.size == 0 {
        return Err(
            UploadError { message: String::from_str("The uploaded file cannot be of size zero bytes.") },
        );
    }
    if file.size as u64 > MAX_FILE_SIZE {
        return Err(
            UploadError {
                message: String::from_str(
                    "The uploaded file is too large. Maximum size should be 10485760 bytes.",
                ),
            },
        );
    }
    let original = match &file.file_name {
        Some(n) => n,
        None => {
            assert(false);
            return Err(UploadError { message: String::new() });
        },
    };
    let ext = file_extension(original.as_str());
    let new_name = String::from_str(name).concat(".").concat(ext.as_str());
    let relative_path = String::from_str(path_to).concat("/").concat(new_name.as_str());
    proof {
        assert(new_name@ == stored_name(name@, original@));
        assert(relative_path@ =~= stored_path(path_to@, name@, original@));
    }
    Ok(UploadPlan { file_name: new_name, relative_path })
}

/// The result of an upload once the file has been moved (or not) to its
/// place: the stored file's relative path, or the error.
pub fn finish_upload(plan: UploadPlan, moved: bool) -> (r: Result<String, UploadError>)
    ensures
        moved ==> (r matches Ok(p) && p@ == plan.relative_path@),
        !moved ==> (r matches Err(e) && e.message@ == msg_move_failed()),
{
    if moved {
        Ok(plan.relative_path)
    } else {
        Err(
            UploadError {
                message: String::from_str(
                    "Could not update the logo, Error occurred while uploading!",
                ),
            },
        )
    }
}

} // verus!
