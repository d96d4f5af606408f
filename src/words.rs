//! Fixed header words and messages.
use vstd::prelude::*;

verus! {

/// `inline`
pub open spec fn inline_word() -> Seq<u8> {
    seq![105u8, 110, 108, 105, 110, 101]
}

pub(crate) fn inline_word_bytes() -> (r: Vec<u8>)
    ensures
        r@ == inline_word(),
{
    let r: Vec<u8> = vec![105u8, 110, 108, 105, 110, 101];
    proof {
        assert(r@ =~= inline_word());
    }
    r
}

/// `attachment`
pub open spec fn attachment_word() -> Seq<u8> {
    seq![97u8, 116, 116, 97, 99, 104, 109, 101, 110, 116]
}

pub(crate) fn attachment_word_bytes() -> (r: Vec<u8>)
    ensures
        r@ == attachment_word(),
{
    let r: Vec<u8> = vec![97u8, 116, 116, 97, 99, 104, 109, 101, 110, 116];
    proof {
        assert(r@ =~= attachment_word());
    }
    r
}

/// `; filename="`
pub open spec fn filename_param() -> Seq<u8> {
    seq![59u8, 32, 102, 105, 108, 101, 110, 97, 109, 101, 61, 34]
}

pub(crate) fn filename_param_bytes() -> (r: Vec<u8>)
    ensures
        r@ == filename_param(),
{
    let r: Vec<u8> = vec![59u8, 32, 102, 105, 108, 101, 110, 97, 109, 101, 61, 34];
    proof {
        assert(r@ =~= filename_param());
    }
    r
}

/// `bytes`
pub open spec fn bytes_unit() -> Seq<u8> {
    seq![98u8, 121, 116, 101, 115]
}

pub(crate) fn bytes_unit_bytes() -> (r: Vec<u8>)
    ensures
        r@ == bytes_unit(),
{
    let r: Vec<u8> = vec![98u8, 121, 116, 101, 115];
    proof {
        assert(r@ =~= bytes_unit());
    }
    r
}

/// `bytes */`
pub open spec fn unsatisfied_range_prefix() -> Seq<u8> {
    seq![98u8, 121, 116, 101, 115, 32, 42, 47]
}

pub(crate) fn unsatisfied_range_prefix_bytes() -> (r: Vec<u8>)
    ensures
        r@ == unsatisfied_range_prefix(),
{
    let r: Vec<u8> = vec![98u8, 121, 116, 101, 115, 32, 42, 47];
    proof {
        assert(r@ =~= unsatisfied_range_prefix());
    }
    r
}

/// `text/plain`
pub open spec fn text_plain() -> Seq<u8> {
    seq![116u8, 101, 120, 116, 47, 112, 108, 97, 105, 110]
}

pub(crate) fn text_plain_bytes() -> (r: Vec<u8>)
    ensures
        r@ == text_plain(),
{
    let r: Vec<u8> = vec![116u8, 101, 120, 116, 47, 112, 108, 97, 105, 110];
    proof {
        assert(r@ =~= text_plain());
    }
    r
}

/// `GET, HEAD`
pub open spec fn allow_get_head() -> Seq<u8> {
    seq![71u8, 69, 84, 44, 32, 72, 69, 65, 68]
}

pub(crate) fn allow_get_head_bytes() -> (r: Vec<u8>)
    ensures
        r@ == allow_get_head(),
{
    let r: Vec<u8> = vec![71u8, 69, 84, 44, 32, 72, 69, 65, 68];
    proof {
        assert(r@ =~= allow_get_head());
    }
    r
}

/// `This resource only supports GET and HEAD.`
pub open spec fn method_not_allowed_text() -> Seq<u8> {
    seq![84u8, 104, 105, 115, 32, 114, 101, 115, 111, 117, 114, 99, 101, 32, 111, 110, 108, 121, 32, 115, 117, 112, 112, 111, 114, 116, 115, 32, 71, 69, 84, 32, 97, 110, 100, 32, 72, 69, 65, 68, 46]
}

pub(crate) fn method_not_allowed_text_bytes() -> (r: Vec<u8>)
    ensures
        r@ == method_not_allowed_text(),
{
    let r: Vec<u8> = vec![84u8, 104, 105, 115, 32, 114, 101, 115, 111, 117, 114, 99, 101, 32, 111, 110, 108, 121, 32, 115, 117, 112, 112, 111, 114, 116, 115, 32, 71, 69, 84, 32, 97, 110, 100, 32, 72, 69, 65, 68, 46];
    proof {
        assert(r@ =~= method_not_allowed_text());
    }
    r
}

/// `text`
pub open spec fn text_word() -> Seq<u8> {
    seq![116u8, 101, 120, 116]
}

pub(crate) fn text_word_bytes() -> (r: Vec<u8>)
    ensures
        r@ == text_word(),
{
    let r: Vec<u8> = vec![116u8, 101, 120, 116];
    proof {
        assert(r@ =~= text_word());
    }
    r
}

/// `image`
pub open spec fn image_word() -> Seq<u8> {
    seq![105u8, 109, 97, 103, 101]
}

pub(crate) fn image_word_bytes() -> (r: Vec<u8>)
    ensures
        r@ == image_word(),
{
    let r: Vec<u8> = vec![105u8, 109, 97, 103, 101];
    proof {
        assert(r@ =~= image_word());
    }
    r
}

/// `video`
pub open spec fn video_word() -> Seq<u8> {
    seq![118u8, 105, 100, 101, 111]
}

pub(crate) fn video_word_bytes() -> (r: Vec<u8>)
    ensures
        r@ == video_word(),
{
    let r: Vec<u8> = vec![118u8, 105, 100, 101, 111];
    proof {
        assert(r@ =~= video_word());
    }
    r
}

/// `json`
pub open spec fn json_word() -> Seq<u8> {
    seq![106u8, 115, 111, 110]
}

pub(crate) fn json_word_bytes() -> (r: Vec<u8>)
    ensures
        r@ == json_word(),
{
    let r: Vec<u8> = vec![106u8, 115, 111, 110];
    proof {
        assert(r@ =~= json_word());
    }
    r
}

/// `application/json`
pub open spec fn application_json() -> Seq<u8> {
    seq![97u8, 112, 112, 108, 105, 99, 97, 116, 105, 111, 110, 47, 106, 115, 111, 110]
}

pub(crate) fn application_json_bytes() -> (r: Vec<u8>)
    ensures
        r@ == application_json(),
{
    let r: Vec<u8> = vec![97u8, 112, 112, 108, 105, 99, 97, 116, 105, 111, 110, 47, 106, 115, 111, 110];
    proof {
        assert(r@ =~= application_json());
    }
    r
}

/// `:`
pub open spec fn colon_sep() -> Seq<u8> {
    seq![58u8]
}

pub(crate) fn colon_sep_bytes() -> (r: Vec<u8>)
    ensures
        r@ == colon_sep(),
{
    let r: Vec<u8> = vec![58u8];
    proof {
        assert(r@ =~= colon_sep());
    }
    r
}

/// `Json payload size is bigger than allowed`
pub open spec fn overflow_message() -> Seq<u8> {
    seq![74u8, 115, 111, 110, 32, 112, 97, 121, 108, 111, 97, 100, 32, 115, 105, 122, 101, 32, 105, 115, 32, 98, 105, 103, 103, 101, 114, 32, 116, 104, 97, 110, 32, 97, 108, 108, 111, 119, 101, 100]
}

pub(crate) fn overflow_message_bytes() -> (r: Vec<u8>)
    ensures
        r@ == overflow_message(),
{
    let r: Vec<u8> = vec![74u8, 115, 111, 110, 32, 112, 97, 121, 108, 111, 97, 100, 32, 115, 105, 122, 101, 32, 105, 115, 32, 98, 105, 103, 103, 101, 114, 32, 116, 104, 97, 110, 32, 97, 108, 108, 111, 119, 101, 100];
    proof {
        assert(r@ =~= overflow_message());
    }
    r
}

/// `Content type error`
pub open spec fn content_type_message() -> Seq<u8> {
    seq![67u8, 111, 110, 116, 101, 110, 116, 32, 116, 121, 112, 101, 32, 101, 114, 114, 111, 114]
}

pub(crate) fn content_type_message_bytes() -> (r: Vec<u8>)
    ensures
        r@ == content_type_message(),
{
    let r: Vec<u8> = vec![67u8, 111, 110, 116, 101, 110, 116, 32, 116, 121, 112, 101, 32, 101, 114, 114, 111, 114];
    proof {
        assert(r@ =~= content_type_message());
    }
    r
}

/// `Json deserialize error`
pub open spec fn deserialize_message() -> Seq<u8> {
    seq![74u8, 115, 111, 110, 32, 100, 101, 115, 101, 114, 105, 97, 108, 105, 122, 101, 32, 101, 114, 114, 111, 114]
}

pub(crate) fn deserialize_message_bytes() -> (r: Vec<u8>)
    ensures
        r@ == deserialize_message(),
{
    let r: Vec<u8> = vec![74u8, 115, 111, 110, 32, 100, 101, 115, 101, 114, 105, 97, 108, 105, 122, 101, 32, 101, 114, 114, 111, 114];
    proof {
        assert(r@ =~= deserialize_message());
    }
    r
}

/// `Json serialize error`
pub open spec fn serialize_message() -> Seq<u8> {
    seq![74u8, 115, 111, 110, 32, 115, 101, 114, 105, 97, 108, 105, 122, 101, 32, 101, 114, 114, 111, 114]
}

pub(crate) fn serialize_message_bytes() -> (r: Vec<u8>)
    ensures
        r@ == serialize_message(),
{
    let r: Vec<u8> = vec![74u8, 115, 111, 110, 32, 115, 101, 114, 105, 97, 108, 105, 122, 101, 32, 101, 114, 114, 111, 114];
    proof {
        assert(r@ =~= serialize_message());
    }
    r
}

/// `App data is not configured, to configure use App::data()`
pub open spec fn app_data_missing() -> Seq<u8> {
    seq![65u8, 112, 112, 32, 100, 97, 116, 97, 32, 105, 115, 32, 110, 111, 116, 32, 99, 111, 110, 102, 105, 103, 117, 114, 101, 100, 44, 32, 116, 111, 32, 99, 111, 110, 102, 105, 103, 117, 114, 101, 32, 117, 115, 101, 32, 65, 112, 112, 58, 58, 100, 97, 116, 97, 40, 41]
}

pub(crate) fn app_data_missing_bytes() -> (r: Vec<u8>)
    ensures
        r@ == app_data_missing(),
{
    let r: Vec<u8> = vec![65u8, 112, 112, 32, 100, 97, 116, 97, 32, 105, 115, 32, 110, 111, 116, 32, 99, 111, 110, 102, 105, 103, 117, 114, 101, 100, 44, 32, 116, 111, 32, 99, 111, 110, 102, 105, 103, 117, 114, 101, 32, 117, 115, 101, 32, 65, 112, 112, 58, 58, 100, 97, 116, 97, 40, 41];
    proof {
        assert(r@ =~= app_data_missing());
    }
    r
}

/// `Route data is not configured, to configure use Route::data()`
pub open spec fn route_data_missing() -> Seq<u8> {
    seq![82u8, 111, 117, 116, 101, 32, 100, 97, 116, 97, 32, 105, 115, 32, 110, 111, 116, 32, 99, 111, 110, 102, 105, 103, 117, 114, 101, 100, 44, 32, 116, 111, 32, 99, 111, 110, 102, 105, 103, 117, 114, 101, 32, 117, 115, 101, 32, 82, 111, 117, 116, 101, 58, 58, 100, 97, 116, 97, 40, 41]
}

pub(crate) fn route_data_missing_bytes() -> (r: Vec<u8>)
    ensures
        r@ == route_data_missing(),
{
    let r: Vec<u8> = vec![82u8, 111, 117, 116, 101, 32, 100, 97, 116, 97, 32, 105, 115, 32, 110, 111, 116, 32, 99, 111, 110, 102, 105, 103, 117, 114, 101, 100, 44, 32, 116, 111, 32, 99, 111, 110, 102, 105, 103, 117, 114, 101, 32, 117, 115, 101, 32, 82, 111, 117, 116, 101, 58, 58, 100, 97, 116, 97, 40, 41];
    proof {
        assert(r@ =~= route_data_missing());
    }
    r
}

} // verus!
