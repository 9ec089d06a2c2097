use crate::capcode::{capcode_of, capcode_name, lemma_capcode_name_round_trip, Capcode};
use crate::document::{lemma_lookup_empty, lookup, JsonValue};
use crate::fields::{
    capcode_json, encodes_capcode, flag_json, flag_value, number_json, number_value, optional_capcode,
    optional_flag, optional_number, optional_text, push_entry, read_optional_capcode, read_optional_flag,
    read_optional_number, read_optional_text, read_required_number, read_required_text, required_number,
    required_text, same_field, text_json, text_value, DecodeError,
};
use vstd::prelude::*;

verus! {

/// One post of a thread. Fields that only some posts carry (those of the
/// opening post, of posts with an attachment, of identity-marked posts)
/// are optional, and none is assumed present.
#[derive(Debug, Clone, PartialEq)]
pub struct Post {
    /// The numeric post ID. Wire key `no`.
    pub post_id: u64,
    /// The post this one replies to; absent on a thread's opening post. Wire key `resto`.
    pub res_to: Option<u64>,
    /// Set when the thread is pinned; opening post only. Wire key `sticky`.
    pub sticky: Option<u8>,
    /// Set when the thread is closed to replies; opening post only. Wire key `closed`.
    pub closed: Option<u8>,
    /// Posting time as text: MM/DD/YY(Day)HH:MM, with :SS on some boards, in US Eastern time. Wire key `now`.
    pub now: String,
    /// UNIX timestamp of the post. Wire key `time`.
    pub time: u64,
    /// Display name of the poster. Wire key `name`.
    pub name: String,
    /// The poster's tripcode. Wire key `trip`.
    pub tripcode: Option<String>,
    /// The poster's ID. Wire key `id`.
    pub id: Option<String>,
    /// The staff role the post was made under. Wire key `capcode`.
    pub capcode: Option<Capcode>,
    /// The poster's country, as an ISO 3166 code. Wire key `country`.
    pub country: Option<String>,
    /// The full name of the poster's country. Wire key `country_name`.
    pub country_name: Option<String>,
    /// The poster's board flag code. Wire key `board_flag`.
    pub board_flag: Option<String>,
    /// The poster's board flag name. Wire key `flag_name`.
    pub flag_name: Option<String>,
    /// The thread subject; opening post only. Wire key `sub`.
    pub subject: Option<String>,
    /// The poster's comment, HTML escaped. Wire key `com`.
    pub comment: Option<String>,
    /// UNIX time plus microtime at which the attachment was uploaded. Wire key `tim`.
    pub upload_time: Option<u64>,
    /// The attachment's file name as it was on the uploader's device. Wire key `filename`.
    pub filename: Option<String>,
    /// The attachment's extension. Wire key `ext`.
    pub upload_ext: Option<String>,
    /// The attachment's size in bytes. Wire key `fsize`.
    pub upload_size: Option<u64>,
    /// The attachment's MD5 hash. Wire key `md5`.
    pub file_hash: Option<String>,
    /// Width of the attached image. Wire key `w`.
    pub width: Option<u64>,
    /// Height of the attached image. Wire key `h`.
    pub height: Option<u64>,
    /// Width of the thumbnail. Wire key `tn_w`.
    pub thumbnail_width: Option<u64>,
    /// Height of the thumbnail. Wire key `tn_h`.
    pub thumbnail_height: Option<u64>,
    /// Set when the attachment has been deleted. Wire key `filedeleted`.
    pub file_deleted: Option<u8>,
    /// Set when the attachment is spoilered. Wire key `spoiler`.
    pub spoiler: Option<u8>,
    /// The custom spoiler ID. Wire key `custom_spoiler`.
    pub custom_spoiler: Option<u8>,
    /// The number of replies in the thread; opening post only. Wire key `replies`.
    pub replies: Option<u64>,
    /// The number of images in the thread; opening post only. Wire key `images`.
    pub images: Option<u64>,
    /// The thread's bump limit marker; opening post only. Wire key `bumplimit`.
    pub bump_limit: Option<u64>,
    /// The thread's image limit marker; opening post only. Wire key `imagelimit`.
    pub image_limit: Option<u64>,
    /// The category of a flash upload; opening post only, on flash boards. Wire key `tag`.
    pub tag: Option<String>,
    /// The thread's SEO URL slug; opening post only. Wire key `semantic_url`.
    pub semantic_url: Option<String>,
    /// The year the poster's pass was bought. Wire key `since4pass`.
    pub since_4pass: Option<u64>,
    /// The number of unique IPs that posted in the thread; opening post only. Wire key `unique_ips`.
    pub unique_ips: Option<u64>,
    /// Set when a mobile-optimised image exists for the post. Wire key `m_img`.
    pub mobile_img: Option<u8>,
    /// Set when the thread is archived; opening post only. Wire key `archived`.
    pub archived: Option<u8>,
    /// UNIX time at which the thread was archived; opening post only. Wire key `archived_on`.
    pub archived_on: Option<u64>,
}

/// What the wire keys of a post are made of, enough to tell any two apart.
pub proof fn lemma_post_keys()
    ensures
        "no"@.len() == 2,
        "no"@[0] == 'n',
        "resto"@.len() == 5,
        "resto"@[0] == 'r',
        "sticky"@.len() == 6,
        "sticky"@[0] == 's',
        "closed"@.len() == 6,
        "closed"@[0] == 'c',
        "now"@.len() == 3,
        "now"@[0] == 'n',
        "time"@.len() == 4,
        "time"@[0] == 't',
        "time"@[1] == 'i',
        "name"@.len() == 4,
        "name"@[0] == 'n',
        "trip"@.len() == 4,
        "trip"@[0] == 't',
        "trip"@[1] == 'r',
        "id"@.len() == 2,
        "id"@[0] == 'i',
        "capcode"@.len() == 7,
        "capcode"@[0] == 'c',
        "capcode"@[1] == 'a',
        "country"@.len() == 7,
        "country"@[0] == 'c',
        "country"@[1] == 'o',
        "country_name"@.len() == 12,
        "country_name"@[0] == 'c',
        "board_flag"@.len() == 10,
        "board_flag"@[0] == 'b',
        "flag_name"@.len() == 9,
        "flag_name"@[0] == 'f',
        "sub"@.len() == 3,
        "sub"@[0] == 's',
        "com"@.len() == 3,
        "com"@[0] == 'c',
        "tim"@.len() == 3,
        "tim"@[0] == 't',
        "tim"@[1] == 'i',
        "filename"@.len() == 8,
        "filename"@[0] == 'f',
        "ext"@.len() == 3,
        "ext"@[0] == 'e',
        "fsize"@.len() == 5,
        "fsize"@[0] == 'f',
        "md5"@.len() == 3,
        "md5"@[0] == 'm',
        "w"@.len() == 1,
        "w"@[0] == 'w',
        "h"@.len() == 1,
        "h"@[0] == 'h',
        "tn_w"@.len() == 4,
        "tn_w"@[0] == 't',
        "tn_w"@[1] == 'n',
        "tn_w"@[3] == 'w',
        "tn_h"@.len() == 4,
        "tn_h"@[0] == 't',
        "tn_h"@[1] == 'n',
        "tn_h"@[3] == 'h',
        "filedeleted"@.len() == 11,
        "filedeleted"@[0] == 'f',
        "spoiler"@.len() == 7,
        "spoiler"@[0] == 's',
        "custom_spoiler"@.len() == 14,
        "replies"@.len() == 7,
        "replies"@[0] == 'r',
        "images"@.len() == 6,
        "images"@[0] == 'i',
        "bumplimit"@.len() == 9,
        "bumplimit"@[0] == 'b',
        "imagelimit"@.len() == 10,
        "imagelimit"@[0] == 'i',
        "tag"@.len() == 3,
        "tag"@[0] == 't',
        "tag"@[1] == 'a',
        "semantic_url"@.len() == 12,
        "semantic_url"@[0] == 's',
        "since4pass"@.len() == 10,
        "since4pass"@[0] == 's',
        "unique_ips"@.len() == 10,
        "unique_ips"@[0] == 'u',
        "m_img"@.len() == 5,
        "m_img"@[0] == 'm',
        "archived"@.len() == 8,
        "archived"@[0] == 'a',
        "archived_on"@.len() == 11,
        "archived_on"@[0] == 'a',
{
    reveal_strlit("no");
    reveal_strlit("resto");
    reveal_strlit("sticky");
    reveal_strlit("closed");
    reveal_strlit("now");
    reveal_strlit("time");
    reveal_strlit("name");
    reveal_strlit("trip");
    reveal_strlit("id");
    reveal_strlit("capcode");
    reveal_strlit("country");
    reveal_strlit("country_name");
    reveal_strlit("board_flag");
    reveal_strlit("flag_name");
    reveal_strlit("sub");
    reveal_strlit("com");
    reveal_strlit("tim");
    reveal_strlit("filename");
    reveal_strlit("ext");
    reveal_strlit("fsize");
    reveal_strlit("md5");
    reveal_strlit("w");
    reveal_strlit("h");
    reveal_strlit("tn_w");
    reveal_strlit("tn_h");
    reveal_strlit("filedeleted");
    reveal_strlit("spoiler");
    reveal_strlit("custom_spoiler");
    reveal_strlit("replies");
    reveal_strlit("images");
    reveal_strlit("bumplimit");
    reveal_strlit("imagelimit");
    reveal_strlit("tag");
    reveal_strlit("semantic_url");
    reveal_strlit("since4pass");
    reveal_strlit("unique_ips");
    reveal_strlit("m_img");
    reveal_strlit("archived");
    reveal_strlit("archived_on");
}

/// An object is a valid post when every field of the schema holds a value
/// that the field accepts.
#[verifier::opaque]
pub open spec fn post_valid(o: Seq<(String, JsonValue)>) -> bool {
    &&& required_number(lookup(o, "no"@)) is Some
    &&& optional_number(lookup(o, "resto"@)) is Some
    &&& optional_flag(lookup(o, "sticky"@)) is Some
    &&& optional_flag(lookup(o, "closed"@)) is Some
    &&& required_text(lookup(o, "now"@)) is Some
    &&& required_number(lookup(o, "time"@)) is Some
    &&& required_text(lookup(o, "name"@)) is Some
    &&& optional_text(lookup(o, "trip"@)) is Some
    &&& optional_text(lookup(o, "id"@)) is Some
    &&& optional_capcode(lookup(o, "capcode"@)) is Some
    &&& optional_text(lookup(o, "country"@)) is Some
    &&& optional_text(lookup(o, "country_name"@)) is Some
    &&& optional_text(lookup(o, "board_flag"@)) is Some
    &&& optional_text(lookup(o, "flag_name"@)) is Some
    &&& optional_text(lookup(o, "sub"@)) is Some
    &&& optional_text(lookup(o, "com"@)) is Some
    &&& optional_number(lookup(o, "tim"@)) is Some
    &&& optional_text(lookup(o, "filename"@)) is Some
    &&& optional_text(lookup(o, "ext"@)) is Some
    &&& optional_number(lookup(o, "fsize"@)) is Some
    &&& optional_text(lookup(o, "md5"@)) is Some
    &&& optional_number(lookup(o, "w"@)) is Some
    &&& optional_number(lookup(o, "h"@)) is Some
    &&& optional_number(lookup(o, "tn_w"@)) is Some
    &&& optional_number(lookup(o, "tn_h"@)) is Some
    &&& optional_flag(lookup(o, "filedeleted"@)) is Some
    &&& optional_flag(lookup(o, "spoiler"@)) is Some
    &&& optional_flag(lookup(o, "custom_spoiler"@)) is Some
    &&& optional_number(lookup(o, "replies"@)) is Some
    &&& optional_number(lookup(o, "images"@)) is Some
    &&& optional_number(lookup(o, "bumplimit"@)) is Some
    &&& optional_number(lookup(o, "imagelimit"@)) is Some
    &&& optional_text(lookup(o, "tag"@)) is Some
    &&& optional_text(lookup(o, "semantic_url"@)) is Some
    &&& optional_number(lookup(o, "since4pass"@)) is Some
    &&& optional_number(lookup(o, "unique_ips"@)) is Some
    &&& optional_flag(lookup(o, "m_img"@)) is Some
    &&& optional_flag(lookup(o, "archived"@)) is Some
    &&& optional_number(lookup(o, "archived_on"@)) is Some
}

/// `key` names a field of the schema whose value in `o` it does not accept.
#[verifier::opaque]
pub open spec fn field_invalid(o: Seq<(String, JsonValue)>, key: Seq<char>) -> bool {
    ||| (key == "no"@ && required_number(lookup(o, key)) is None)
    ||| (key == "resto"@ && optional_number(lookup(o, key)) is None)
    ||| (key == "sticky"@ && optional_flag(lookup(o, key)) is None)
    ||| (key == "closed"@ && optional_flag(lookup(o, key)) is None)
    ||| (key == "now"@ && required_text(lookup(o, key)) is None)
    ||| (key == "time"@ && required_number(lookup(o, key)) is None)
    ||| (key == "name"@ && required_text(lookup(o, key)) is None)
    ||| (key == "trip"@ && optional_text(lookup(o, key)) is None)
    ||| (key == "id"@ && optional_text(lookup(o, key)) is None)
    ||| (key == "capcode"@ && optional_capcode(lookup(o, key)) is None)
    ||| (key == "country"@ && optional_text(lookup(o, key)) is None)
    ||| (key == "country_name"@ && optional_text(lookup(o, key)) is None)
    ||| (key == "board_flag"@ && optional_text(lookup(o, key)) is None)
    ||| (key == "flag_name"@ && optional_text(lookup(o, key)) is None)
    ||| (key == "sub"@ && optional_text(lookup(o, key)) is None)
    ||| (key == "com"@ && optional_text(lookup(o, key)) is None)
    ||| (key == "tim"@ && optional_number(lookup(o, key)) is None)
    ||| (key == "filename"@ && optional_text(lookup(o, key)) is None)
    ||| (key == "ext"@ && optional_text(lookup(o, key)) is None)
    ||| (key == "fsize"@ && optional_number(lookup(o, key)) is None)
    ||| (key == "md5"@ && optional_text(lookup(o, key)) is None)
    ||| (key == "w"@ && optional_number(lookup(o, key)) is None)
    ||| (key == "h"@ && optional_number(lookup(o, key)) is None)
    ||| (key == "tn_w"@ && optional_number(lookup(o, key)) is None)
    ||| (key == "tn_h"@ && optional_number(lookup(o, key)) is None)
    ||| (key == "filedeleted"@ && optional_flag(lookup(o, key)) is None)
    ||| (key == "spoiler"@ && optional_flag(lookup(o, key)) is None)
    ||| (key == "custom_spoiler"@ && optional_flag(lookup(o, key)) is None)
    ||| (key == "replies"@ && optional_number(lookup(o, key)) is None)
    ||| (key == "images"@ && optional_number(lookup(o, key)) is None)
    ||| (key == "bumplimit"@ && optional_number(lookup(o, key)) is None)
    ||| (key == "imagelimit"@ && optional_number(lookup(o, key)) is None)
    ||| (key == "tag"@ && optional_text(lookup(o, key)) is None)
    ||| (key == "semantic_url"@ && optional_text(lookup(o, key)) is None)
    ||| (key == "since4pass"@ && optional_number(lookup(o, key)) is None)
    ||| (key == "unique_ips"@ && optional_number(lookup(o, key)) is None)
    ||| (key == "m_img"@ && optional_flag(lookup(o, key)) is None)
    ||| (key == "archived"@ && optional_flag(lookup(o, key)) is None)
    ||| (key == "archived_on"@ && optional_number(lookup(o, key)) is None)
}

/// `key` is a wire key of a post field.
pub open spec fn post_key(key: Seq<char>) -> bool {
    ||| key == "no"@
    ||| key == "resto"@
    ||| key == "sticky"@
    ||| key == "closed"@
    ||| key == "now"@
    ||| key == "time"@
    ||| key == "name"@
    ||| key == "trip"@
    ||| key == "id"@
    ||| key == "capcode"@
    ||| key == "country"@
    ||| key == "country_name"@
    ||| key == "board_flag"@
    ||| key == "flag_name"@
    ||| key == "sub"@
    ||| key == "com"@
    ||| key == "tim"@
    ||| key == "filename"@
    ||| key == "ext"@
    ||| key == "fsize"@
    ||| key == "md5"@
    ||| key == "w"@
    ||| key == "h"@
    ||| key == "tn_w"@
    ||| key == "tn_h"@
    ||| key == "filedeleted"@
    ||| key == "spoiler"@
    ||| key == "custom_spoiler"@
    ||| key == "replies"@
    ||| key == "images"@
    ||| key == "bumplimit"@
    ||| key == "imagelimit"@
    ||| key == "tag"@
    ||| key == "semantic_url"@
    ||| key == "since4pass"@
    ||| key == "unique_ips"@
    ||| key == "m_img"@
    ||| key == "archived"@
    ||| key == "archived_on"@
}

/// The post that a valid object decodes to.
#[verifier::opaque]
pub open spec fn spec_post(o: Seq<(String, JsonValue)>) -> Post {
    Post {
        post_id: required_number(lookup(o, "no"@))->Some_0,
        res_to: optional_number(lookup(o, "resto"@))->Some_0,
        sticky: optional_flag(lookup(o, "sticky"@))->Some_0,
        closed: optional_flag(lookup(o, "closed"@))->Some_0,
        now: required_text(lookup(o, "now"@))->Some_0,
        time: required_number(lookup(o, "time"@))->Some_0,
        name: required_text(lookup(o, "name"@))->Some_0,
        tripcode: optional_text(lookup(o, "trip"@))->Some_0,
        id: optional_text(lookup(o, "id"@))->Some_0,
        capcode: optional_capcode(lookup(o, "capcode"@))->Some_0,
        country: optional_text(lookup(o, "country"@))->Some_0,
        country_name: optional_text(lookup(o, "country_name"@))->Some_0,
        board_flag: optional_text(lookup(o, "board_flag"@))->Some_0,
        flag_name: optional_text(lookup(o, "flag_name"@))->Some_0,
        subject: optional_text(lookup(o, "sub"@))->Some_0,
        comment: optional_text(lookup(o, "com"@))->Some_0,
        upload_time: optional_number(lookup(o, "tim"@))->Some_0,
        filename: optional_text(lookup(o, "filename"@))->Some_0,
        upload_ext: optional_text(lookup(o, "ext"@))->Some_0,
        upload_size: optional_number(lookup(o, "fsize"@))->Some_0,
        file_hash: optional_text(lookup(o, "md5"@))->Some_0,
        width: optional_number(lookup(o, "w"@))->Some_0,
        height: optional_number(lookup(o, "h"@))->Some_0,
        thumbnail_width: optional_number(lookup(o, "tn_w"@))->Some_0,
        thumbnail_height: optional_number(lookup(o, "tn_h"@))->Some_0,
        file_deleted: optional_flag(lookup(o, "filedeleted"@))->Some_0,
        spoiler: optional_flag(lookup(o, "spoiler"@))->Some_0,
        custom_spoiler: optional_flag(lookup(o, "custom_spoiler"@))->Some_0,
        replies: optional_number(lookup(o, "replies"@))->Some_0,
        images: optional_number(lookup(o, "images"@))->Some_0,
        bump_limit: optional_number(lookup(o, "bumplimit"@))->Some_0,
        image_limit: optional_number(lookup(o, "imagelimit"@))->Some_0,
        tag: optional_text(lookup(o, "tag"@))->Some_0,
        semantic_url: optional_text(lookup(o, "semantic_url"@))->Some_0,
        since_4pass: optional_number(lookup(o, "since4pass"@))->Some_0,
        unique_ips: optional_number(lookup(o, "unique_ips"@))->Some_0,
        mobile_img: optional_flag(lookup(o, "m_img"@))->Some_0,
        archived: optional_flag(lookup(o, "archived"@))->Some_0,
        archived_on: optional_number(lookup(o, "archived_on"@))->Some_0,
    }
}

/// `o` is an encoding of `p`: each field present in `p` stands under its
/// wire key with its value, and each absent one has no entry.
#[verifier::opaque]
pub open spec fn encodes_post(p: Post, o: Seq<(String, JsonValue)>) -> bool {
    &&& lookup(o, "no"@) == Some(JsonValue::UInt(p.post_id))
    &&& lookup(o, "resto"@) == number_value(p.res_to)
    &&& lookup(o, "sticky"@) == flag_value(p.sticky)
    &&& lookup(o, "closed"@) == flag_value(p.closed)
    &&& lookup(o, "now"@) == Some(JsonValue::Str(p.now))
    &&& lookup(o, "time"@) == Some(JsonValue::UInt(p.time))
    &&& lookup(o, "name"@) == Some(JsonValue::Str(p.name))
    &&& lookup(o, "trip"@) == text_value(p.tripcode)
    &&& lookup(o, "id"@) == text_value(p.id)
    &&& encodes_capcode(p.capcode, lookup(o, "capcode"@))
    &&& lookup(o, "country"@) == text_value(p.country)
    &&& lookup(o, "country_name"@) == text_value(p.country_name)
    &&& lookup(o, "board_flag"@) == text_value(p.board_flag)
    &&& lookup(o, "flag_name"@) == text_value(p.flag_name)
    &&& lookup(o, "sub"@) == text_value(p.subject)
    &&& lookup(o, "com"@) == text_value(p.comment)
    &&& lookup(o, "tim"@) == number_value(p.upload_time)
    &&& lookup(o, "filename"@) == text_value(p.filename)
    &&& lookup(o, "ext"@) == text_value(p.upload_ext)
    &&& lookup(o, "fsize"@) == number_value(p.upload_size)
    &&& lookup(o, "md5"@) == text_value(p.file_hash)
    &&& lookup(o, "w"@) == number_value(p.width)
    &&& lookup(o, "h"@) == number_value(p.height)
    &&& lookup(o, "tn_w"@) == number_value(p.thumbnail_width)
    &&& lookup(o, "tn_h"@) == number_value(p.thumbnail_height)
    &&& lookup(o, "filedeleted"@) == flag_value(p.file_deleted)
    &&& lookup(o, "spoiler"@) == flag_value(p.spoiler)
    &&& lookup(o, "custom_spoiler"@) == flag_value(p.custom_spoiler)
    &&& lookup(o, "replies"@) == number_value(p.replies)
    &&& lookup(o, "images"@) == number_value(p.images)
    &&& lookup(o, "bumplimit"@) == number_value(p.bump_limit)
    &&& lookup(o, "imagelimit"@) == number_value(p.image_limit)
    &&& lookup(o, "tag"@) == text_value(p.tag)
    &&& lookup(o, "semantic_url"@) == text_value(p.semantic_url)
    &&& lookup(o, "since4pass"@) == number_value(p.since_4pass)
    &&& lookup(o, "unique_ips"@) == number_value(p.unique_ips)
    &&& lookup(o, "m_img"@) == flag_value(p.mobile_img)
    &&& lookup(o, "archived"@) == flag_value(p.archived)
    &&& lookup(o, "archived_on"@) == number_value(p.archived_on)
}

/// Decoding an encoding of a post gives that post back.
pub proof fn lemma_post_round_trip(p: Post, o: Seq<(String, JsonValue)>)
    requires
        encodes_post(p, o),
    ensures
        post_valid(o),
        spec_post(o) == p,
{
    reveal(post_valid);
    reveal(spec_post);
    reveal(encodes_post);
    if let Some(c) = p.capcode {
        lemma_capcode_name_round_trip(c, capcode_name(c));
    }
    let q = spec_post(o);
    assert(q.post_id == p.post_id);
    assert(q.res_to == p.res_to);
    assert(q.sticky == p.sticky);
    assert(q.closed == p.closed);
    assert(q.now == p.now);
    assert(q.time == p.time);
    assert(q.name == p.name);
    assert(q.tripcode == p.tripcode);
    assert(q.id == p.id);
    assert(q.capcode == p.capcode);
    assert(q.country == p.country);
    assert(q.country_name == p.country_name);
    assert(q.board_flag == p.board_flag);
    assert(q.flag_name == p.flag_name);
    assert(q.subject == p.subject);
    assert(q.comment == p.comment);
    assert(q.upload_time == p.upload_time);
    assert(q.filename == p.filename);
    assert(q.upload_ext == p.upload_ext);
    assert(q.upload_size == p.upload_size);
    assert(q.file_hash == p.file_hash);
    assert(q.width == p.width);
    assert(q.height == p.height);
    assert(q.thumbnail_width == p.thumbnail_width);
    assert(q.thumbnail_height == p.thumbnail_height);
    assert(q.file_deleted == p.file_deleted);
    assert(q.spoiler == p.spoiler);
    assert(q.custom_spoiler == p.custom_spoiler);
    assert(q.replies == p.replies);
    assert(q.images == p.images);
    assert(q.bump_limit == p.bump_limit);
    assert(q.image_limit == p.image_limit);
    assert(q.tag == p.tag);
    assert(q.semantic_url == p.semantic_url);
    assert(q.since_4pass == p.since_4pass);
    assert(q.unique_ips == p.unique_ips);
    assert(q.mobile_img == p.mobile_img);
    assert(q.archived == p.archived);
    assert(q.archived_on == p.archived_on);
}

/// Encoding what a valid object decodes to keeps every field of the schema:
/// a value that was there is there again, and a field that was absent or
/// null has no entry.
pub proof fn lemma_post_fields_kept(o: Seq<(String, JsonValue)>, out: Seq<(String, JsonValue)>)
    requires
        post_valid(o),
        encodes_post(spec_post(o), out),
    ensures
        forall|k: Seq<char>| post_key(k) ==> same_field(#[trigger] lookup(o, k), lookup(out, k)),
{
    reveal(post_valid);
    reveal(spec_post);
    reveal(encodes_post);
    if let Some(JsonValue::Str(s)) = lookup(o, "capcode"@) {
        lemma_capcode_name_round_trip(capcode_of(s@)->Some_0, s@);
    }
    assert(same_field(lookup(o, "no"@), lookup(out, "no"@)));
    assert(same_field(lookup(o, "resto"@), lookup(out, "resto"@)));
    assert(same_field(lookup(o, "sticky"@), lookup(out, "sticky"@)));
    assert(same_field(lookup(o, "closed"@), lookup(out, "closed"@)));
    assert(same_field(lookup(o, "now"@), lookup(out, "now"@)));
    assert(same_field(lookup(o, "time"@), lookup(out, "time"@)));
    assert(same_field(lookup(o, "name"@), lookup(out, "name"@)));
    assert(same_field(lookup(o, "trip"@), lookup(out, "trip"@)));
    assert(same_field(lookup(o, "id"@), lookup(out, "id"@)));
    assert(same_field(lookup(o, "capcode"@), lookup(out, "capcode"@)));
    assert(same_field(lookup(o, "country"@), lookup(out, "country"@)));
    assert(same_field(lookup(o, "country_name"@), lookup(out, "country_name"@)));
    assert(same_field(lookup(o, "board_flag"@), lookup(out, "board_flag"@)));
    assert(same_field(lookup(o, "flag_name"@), lookup(out, "flag_name"@)));
    assert(same_field(lookup(o, "sub"@), lookup(out, "sub"@)));
    assert(same_field(lookup(o, "com"@), lookup(out, "com"@)));
    assert(same_field(lookup(o, "tim"@), lookup(out, "tim"@)));
    assert(same_field(lookup(o, "filename"@), lookup(out, "filename"@)));
    assert(same_field(lookup(o, "ext"@), lookup(out, "ext"@)));
    assert(same_field(lookup(o, "fsize"@), lookup(out, "fsize"@)));
    assert(same_field(lookup(o, "md5"@), lookup(out, "md5"@)));
    assert(same_field(lookup(o, "w"@), lookup(out, "w"@)));
    assert(same_field(lookup(o, "h"@), lookup(out, "h"@)));
    assert(same_field(lookup(o, "tn_w"@), lookup(out, "tn_w"@)));
    assert(same_field(lookup(o, "tn_h"@), lookup(out, "tn_h"@)));
    assert(same_field(lookup(o, "filedeleted"@), lookup(out, "filedeleted"@)));
    assert(same_field(lookup(o, "spoiler"@), lookup(out, "spoiler"@)));
    assert(same_field(lookup(o, "custom_spoiler"@), lookup(out, "custom_spoiler"@)));
    assert(same_field(lookup(o, "replies"@), lookup(out, "replies"@)));
    assert(same_field(lookup(o, "images"@), lookup(out, "images"@)));
    assert(same_field(lookup(o, "bumplimit"@), lookup(out, "bumplimit"@)));
    assert(same_field(lookup(o, "imagelimit"@), lookup(out, "imagelimit"@)));
    assert(same_field(lookup(o, "tag"@), lookup(out, "tag"@)));
    assert(same_field(lookup(o, "semantic_url"@), lookup(out, "semantic_url"@)));
    assert(same_field(lookup(o, "since4pass"@), lookup(out, "since4pass"@)));
    assert(same_field(lookup(o, "unique_ips"@), lookup(out, "unique_ips"@)));
    assert(same_field(lookup(o, "m_img"@), lookup(out, "m_img"@)));
    assert(same_field(lookup(o, "archived"@), lookup(out, "archived"@)));
    assert(same_field(lookup(o, "archived_on"@), lookup(out, "archived_on"@)));
}

/// A post whose capcode is a string that names no capcode does not read.
pub proof fn lemma_unknown_capcode_rejected(o: Seq<(String, JsonValue)>)
    requires
        lookup(o, "capcode"@) matches Some(JsonValue::Str(s)) && capcode_of(s@) is None,
    ensures
        !post_valid(o),
{
    reveal(post_valid);
}

impl Post {
    /// Reads a post from the entries of a JSON object. Keys outside the
    /// schema are ignored; a field absent or null is `None` where it is
    /// optional and an error where it is required.
    pub fn decode(o: &Vec<(String, JsonValue)>) -> (r: Result<Post, DecodeError>)
        ensures
            r is Ok <==> post_valid(o@),
            r matches Ok(p) ==> p == spec_post(o@),
            r matches Err(e) ==> (e matches DecodeError::InvalidField(k) && field_invalid(o@, k@)),
    {
        proof {
            reveal(post_valid);
            reveal(spec_post);
            reveal(field_invalid);
        }
        let post_id = match read_required_number(o, "no") {
            Ok(v) => v,
            Err(e) => return Err(e),
        };
        let res_to = match read_optional_number(o, "resto") {
            Ok(v) => v,
            Err(e) => return Err(e),
        };
        let sticky = match read_optional_flag(o, "sticky") {
            Ok(v) => v,
            Err(e) => return Err(e),
        };
        let closed = match read_optional_flag(o, "closed") {
            Ok(v) => v,
            Err(e) => return Err(e),
        };
        let now = match read_required_text(o, "now") {
            Ok(v) => v,
            Err(e) => return Err(e),
        };
        let time = match read_required_number(o, "time") {
            Ok(v) => v,
            Err(e) => return Err(e),
        };
        let name = match read_required_text(o, "name") {
            Ok(v) => v,
            Err(e) => return Err(e),
        };
        let tripcode = match read_optional_text(o, "trip") {
            Ok(v) => v,
            Err(e) => return Err(e),
        };
        let id = match read_optional_text(o, "id") {
            Ok(v) => v,
            Err(e) => return Err(e),
        };
        let capcode = match read_optional_capcode(o, "capcode") {
            Ok(v) => v,
            Err(e) => return Err(e),
        };
        let country = match read_optional_text(o, "country") {
            Ok(v) => v,
            Err(e) => return Err(e),
        };
        let country_name = match read_optional_text(o, "country_name") {
            Ok(v) => v,
            Err(e) => return Err(e),
        };
        let board_flag = match read_optional_text(o, "board_flag") {
            Ok(v) => v,
            Err(e) => return Err(e),
        };
        let flag_name = match read_optional_text(o, "flag_name") {
            Ok(v) => v,
            Err(e) => return Err(e),
        };
        let subject = match read_optional_text(o, "sub") {
            Ok(v) => v,
            Err(e) => return Err(e),
        };
        let comment = match read_optional_text(o, "com") {
            Ok(v) => v,
            Err(e) => return Err(e),
        };
        let upload_time = match read_optional_number(o, "tim") {
            Ok(v) => v,
            Err(e) => return Err(e),
        };
        let filename = match read_optional_text(o, "filename") {
            Ok(v) => v,
            Err(e) => return Err(e),
        };
        let upload_ext = match read_optional_text(o, "ext") {
            Ok(v) => v,
            Err(e) => return Err(e),
        };
        let upload_size = match read_optional_number(o, "fsize") {
            Ok(v) => v,
            Err(e) => return Err(e),
        };
        let file_hash = match read_optional_text(o, "md5") {
            Ok(v) => v,
            Err(e) => return Err(e),
        };
        let width = match read_optional_number(o, "w") {
            Ok(v) => v,
            Err(e) => return Err(e),
        };
        let height = match read_optional_number(o, "h") {
            Ok(v) => v,
            Err(e) => return Err(e),
        };
        let thumbnail_width = match read_optional_number(o, "tn_w") {
            Ok(v) => v,
            Err(e) => return Err(e),
        };
        let thumbnail_height = match read_optional_number(o, "tn_h") {
            Ok(v) => v,
            Err(e) => return Err(e),
        };
        let file_deleted = match read_optional_flag(o, "filedeleted") {
            Ok(v) => v,
            Err(e) => return Err(e),
        };
        let spoiler = match read_optional_flag(o, "spoiler") {
            Ok(v) => v,
            Err(e) => return Err(e),
        };
        let custom_spoiler = match read_optional_flag(o, "custom_spoiler") {
            Ok(v) => v,
            Err(e) => return Err(e),
        };
        let replies = match read_optional_number(o, "replies") {
            Ok(v) => v,
            Err(e) => return Err(e),
        };
        let images = match read_optional_number(o, "images") {
            Ok(v) => v,
            Err(e) => return Err(e),
        };
        let bump_limit = match read_optional_number(o, "bumplimit") {
            Ok(v) => v,
            Err(e) => return Err(e),
        };
        let image_limit = match read_optional_number(o, "imagelimit") {
            Ok(v) => v,
            Err(e) => return Err(e),
        };
        let tag = match read_optional_text(o, "tag") {
            Ok(v) => v,
            Err(e) => return Err(e),
        };
        let semantic_url = match read_optional_text(o, "semantic_url") {
            Ok(v) => v,
            Err(e) => return Err(e),
        };
        let since_4pass = match read_optional_number(o, "since4pass") {
            Ok(v) => v,
            Err(e) => return Err(e),
        };
        let unique_ips = match read_optional_number(o, "unique_ips") {
            Ok(v) => v,
            Err(e) => return Err(e),
        };
        let mobile_img = match read_optional_flag(o, "m_img") {
            Ok(v) => v,
            Err(e) => return Err(e),
        };
        let archived = match read_optional_flag(o, "archived") {
            Ok(v) => v,
            Err(e) => return Err(e),
        };
        let archived_on = match read_optional_number(o, "archived_on") {
            Ok(v) => v,
            Err(e) => return Err(e),
        };
        Ok(Post {
            post_id,
            res_to,
            sticky,
            closed,
            now,
            time,
            name,
            tripcode,
            id,
            capcode,
            country,
            country_name,
            board_flag,
            flag_name,
            subject,
            comment,
            upload_time,
            filename,
            upload_ext,
            upload_size,
            file_hash,
            width,
            height,
            thumbnail_width,
            thumbnail_height,
            file_deleted,
            spoiler,
            custom_spoiler,
            replies,
            images,
            bump_limit,
            image_limit,
            tag,
            semantic_url,
            since_4pass,
            unique_ips,
            mobile_img,
            archived,
            archived_on,
        })
    }

    /// The entries of the JSON object for this post, in schema order, with
    /// an entry for each field that is present.
    pub fn encode(&self) -> (r: Vec<(String, JsonValue)>)
        ensures
            encodes_post(*self, r@),
    {
        proof {
            lemma_post_keys();
            reveal(encodes_post);
        }
        let mut r: Vec<(String, JsonValue)> = Vec::new();
        proof {
            lemma_lookup_empty();
            assert(r@ =~= Seq::<(String, JsonValue)>::empty());
        }
        push_entry(&mut r, "no", Some(JsonValue::UInt(self.post_id)));
        push_entry(&mut r, "resto", number_json(self.res_to));
        push_entry(&mut r, "sticky", flag_json(self.sticky));
        push_entry(&mut r, "closed", flag_json(self.closed));
        push_entry(&mut r, "now", Some(JsonValue::Str(self.now.clone())));
        push_entry(&mut r, "time", Some(JsonValue::UInt(self.time)));
        push_entry(&mut r, "name", Some(JsonValue::Str(self.name.clone())));
        push_entry(&mut r, "trip", text_json(&self.tripcode));
        push_entry(&mut r, "id", text_json(&self.id));
        push_entry(&mut r, "capcode", capcode_json(self.capcode));
        push_entry(&mut r, "country", text_json(&self.country));
        push_entry(&mut r, "country_name", text_json(&self.country_name));
        push_entry(&mut r, "board_flag", text_json(&self.board_flag));
        push_entry(&mut r, "flag_name", text_json(&self.flag_name));
        push_entry(&mut r, "sub", text_json(&self.subject));
        push_entry(&mut r, "com", text_json(&self.comment));
        push_entry(&mut r, "tim", number_json(self.upload_time));
        push_entry(&mut r, "filename", text_json(&self.filename));
        push_entry(&mut r, "ext", text_json(&self.upload_ext));
        push_entry(&mut r, "fsize", number_json(self.upload_size));
        push_entry(&mut r, "md5", text_json(&self.file_hash));
        push_entry(&mut r, "w", number_json(self.width));
        push_entry(&mut r, "h", number_json(self.height));
        push_entry(&mut r, "tn_w", number_json(self.thumbnail_width));
        push_entry(&mut r, "tn_h", number_json(self.thumbnail_height));
        push_entry(&mut r, "filedeleted", flag_json(self.file_deleted));
        push_entry(&mut r, "spoiler", flag_json(self.spoiler));
        push_entry(&mut r, "custom_spoiler", flag_json(self.custom_spoiler));
        push_entry(&mut r, "replies", number_json(self.replies));
        push_entry(&mut r, "images", number_json(self.images));
        push_entry(&mut r, "bumplimit", number_json(self.bump_limit));
        push_entry(&mut r, "imagelimit", number_json(self.image_limit));
        push_entry(&mut r, "tag", text_json(&self.tag));
        push_entry(&mut r, "semantic_url", text_json(&self.semantic_url));
        push_entry(&mut r, "since4pass", number_json(self.since_4pass));
        push_entry(&mut r, "unique_ips", number_json(self.unique_ips));
        push_entry(&mut r, "m_img", flag_json(self.mobile_img));
        push_entry(&mut r, "archived", flag_json(self.archived));
        push_entry(&mut r, "archived_on", number_json(self.archived_on));
        r
    }
}

} // verus!
