//! Decisions of the image endpoints.

use vstd::prelude::*;
use crate::auth::check_admin;
use crate::messages::{AdminToken, ImageUpload, ImageDelete};
use crate::reply::{Reply, Status, failed, refused, respond};

verus! {

/// Decides a request for the storage statistics. A body that does not decode
/// is a bad request (400), a wrong token 401.
pub fn storage_info_request(request: Option<AdminToken>, admin: &String) -> (decided: Result<
    (),
    Reply,
>)
    ensures
        match request {
            None => decided matches Err(r) && refused(r, Status::BadRequest),
            Some(req) => if req.token@ != admin@ {
                decided matches Err(r) && refused(r, Status::Unauthorized)
            } else {
                decided is Ok
            },
        },
{
    match request {
        None => Err(failed(Status::BadRequest)),
        Some(req) => check_admin(&req.token, admin),
    }
}

/// Decides an image upload: on success, the upload itself. A body that does
/// not decode is a bad request (400), a wrong token 401.
pub fn upload_request(request: Option<ImageUpload>, admin: &String) -> (decided: Result<
    ImageUpload,
    Reply,
>)
    ensures
        match request {
            None => decided matches Err(r) && refused(r, Status::BadRequest),
            Some(req) => if req.token@ != admin@ {
                decided matches Err(r) && refused(r, Status::Unauthorized)
            } else {
                decided matches Ok(up) && up.filename@ == req.filename@ && up.image@ == req.image@
                    && up.token@ == req.token@
            },
        },
{
    match request {
        None => Err(failed(Status::BadRequest)),
        Some(req) => {
            check_admin(&req.token, admin)?;
            Ok(req)
        },
    }
}

/// The answer to an accepted upload, whether the file was new or already
/// there: 200 with the file name as the message.
pub fn upload_reply(filename: String) -> (reply: Reply)
    ensures
        reply.status == Status::Success,
        reply.message@ == filename@,
{
    respond(Status::Success, filename)
}

/// Decides an image removal: on success, the name of the file to remove. A
/// body that does not decode is a bad request (400), a wrong token 401.
pub fn remove_request(request: Option<ImageDelete>, admin: &String) -> (decided: Result<
    String,
    Reply,
>)
    ensures
        match request {
            None => decided matches Err(r) && refused(r, Status::BadRequest),
            Some(req) => if req.token@ != admin@ {
                decided matches Err(r) && refused(r, Status::Unauthorized)
            } else {
                decided matches Ok(name) && name@ == req.filename@
            },
        },
{
    match request {
        None => Err(failed(Status::BadRequest)),
        Some(req) => {
            check_admin(&req.token, admin)?;
            Ok(req.filename)
        },
    }
}

/// The text after the last '.', or the whole text where it has none
/// (the last piece of `split('.')`).
pub open spec fn after_last_dot(s: Seq<char>) -> Seq<char>
    decreases s.len(),
{
    if s.len() == 0 {
        s
    } else if s.last() == '.' {
        seq![]
    } else {
        after_last_dot(s.drop_last()).push(s.last())
    }
}

/// The extension of an image file name: the text after its last '.'.
pub fn image_extension(name: &str) -> (ext: &str)
    ensures
        ext@ == after_last_dot(name@),
{
    let n = name.unicode_len();
    let mut start: usize = 0;
    let mut i: usize = 0;
    while i < n
        invariant
            n == name@.len(),
            start <= i <= n,
            after_last_dot(name@.take(i as int)) == name@.subrange(start as int, i as int),
        decreases n - i,
    {
        assert(name@.take(i + 1).drop_last() =~= name@.take(i as int));
        if name.get_char(i) == '.' {
            start = i + 1;
            assert(name@.subrange(start as int, i + 1) =~= Seq::<char>::empty());
        } else {
            assert(name@.subrange(start as int, i + 1) =~= name@.subrange(start as int, i as int).push(name@[i as int]));
        }
        i = i + 1;
    }
    assert(name@.take(n as int) =~= name@);
    name.substring_char(start, n)
}

/// The content type an image is served with: "image/" and its extension.
pub fn image_content_type(name: &str) -> (content_type: String)
    ensures
        content_type@ == "image/"@ + after_last_dot(name@),
{
    let mut content_type = String::new();
    content_type.append("image/");
    content_type.append(image_extension(name));
    content_type
}

/// The answer when writing an uploaded image fails: 500 "failed".
pub fn upload_write_failed() -> (reply: Reply)
    ensures
        refused(reply, Status::InternalServerError),
{
    failed(Status::InternalServerError)
}

/// The answer when removing an image fails: 400 "failed".
pub fn removal_failed() -> (reply: Reply)
    ensures
        refused(reply, Status::BadRequest),
{
    failed(Status::BadRequest)
}

/// The extension of a file name holds no '.' and ends the name.
pub proof fn lemma_extension_has_no_dot(name: Seq<char>)
    ensures
        !after_last_dot(name).contains('.'),
        after_last_dot(name).len() <= name.len(),
        name.subrange(name.len() - after_last_dot(name).len(), name.len() as int) == after_last_dot(name),
    decreases name.len(),
{
    if name.len() > 0 {
        lemma_extension_has_no_dot(name.drop_last());
        if name.last() != '.' {
            let rest = after_last_dot(name.drop_last());
            assert forall|i: int| 0 <= i < rest.push(name.last()).len() implies rest.push(name.last())[i] != '.' by {
                if i < rest.len() {
                    assert(!rest.contains('.'));
                    assert(rest[i] != '.');
                }
            }
            assert(name.subrange(name.len() - rest.len() - 1, name.len() as int) =~= name.drop_last().subrange(
                name.len() - 1 - rest.len(),
                name.len() - 1,
            ).push(name.last()));
        } else {
            assert(name.subrange(name.len() as int, name.len() as int) =~= Seq::<char>::empty());
        }
    }
}

} // verus!
