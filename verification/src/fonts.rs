//! Fonts that a medium carries for its subtitles.
use crate::subtitle::SubtitleFontAttachment;
use crate::text::{
    characters, contains_ignoring_case, copied_text, joined, last_index_of, same_text,
    signed_decimal_text, stands_before, starts_with_ignoring_case, eq_ignore_ascii_case,
};
use vstd::prelude::*;

verus! {

/// How many fonts a medium may carry.
pub const MAX_SUBTITLE_FONT_ATTACHMENTS: usize = 256;

/// How many bytes one font may have.
pub const MAX_SUBTITLE_FONT_ATTACHMENT_BYTES: usize = 67_108_864;

/// How many bytes all fonts of a medium may have.
pub const MAX_SUBTITLE_FONT_TOTAL_BYTES: usize = 268_435_456;

/// The names of one face of a font.
#[derive(Clone, Debug, PartialEq, Eq)]
pub struct FontFace {
    pub families: Vec<String>,
    pub post_script_name: String,
}

/// The names of a face, as texts.
pub open spec fn face_names(face: FontFace) -> (Seq<Seq<char>>, Seq<char>) {
    (face.families@.map_values(|family: String| family@), face.post_script_name@)
}

/// The names of a list of faces, as texts.
pub open spec fn all_face_names(faces: Seq<FontFace>) -> Seq<(Seq<Seq<char>>, Seq<char>)> {
    faces.map_values(|face: FontFace| face_names(face))
}

/// The names of the faces that a font parser finds in a font file: of each face its families and
/// its PostScript name.
pub uninterp spec fn font_faces(data: Seq<u8>) -> Seq<(Seq<Seq<char>>, Seq<char>)>;

/// Whether a font file is a collection that states how many faces it holds.
pub open spec fn is_collection(data: Seq<u8>) -> bool {
    data.len() >= 12 && data[0] == 0x74 && data[1] == 0x74 && data[2] == 0x63 && data[3] == 0x66
}

/// The number of faces that a collection claims to hold.
pub open spec fn claimed_faces(data: Seq<u8>) -> int {
    0x100_0000 * data[8] + 0x1_0000 * data[9] + 0x100 * data[10] + data[11]
}

/// Whether a font file is large enough for the places of the faces that it claims to hold. In a
/// collection that is too small for them there is no face that could be found.
pub open spec fn faces_fit(data: Seq<u8>) -> bool {
    is_collection(data) ==> 12 + 4 * claimed_faces(data) <= data.len()
}

fn can_list_faces(data: &Vec<u8>) -> (r: bool)
    ensures
        r == faces_fit(data@),
{
    if data.len() < 12 || data[0] != 0x74 || data[1] != 0x74 || data[2] != 0x63 || data[3]
        != 0x66 {
        return true;
    }
    let claimed: u64 = 0x100_0000 * data[8] as u64 + 0x1_0000 * data[9] as u64 + 0x100
        * data[10] as u64 + data[11] as u64;
    12 + 4 * claimed <= data.len() as u64
}

/// Loads `data` into an empty `fontdb::Database` with `Database::load_font_data` and lists the
/// names that `Database::faces` shows. The parser depends on the bytes alone, so the result has
/// the name [`font_faces`]; what it finds in given bytes is not said here. The parser counts places
/// in a file in 32 bits, and a build with debug assertions panics where one does not fit. So the
/// file is bounded, and so is the number of faces that it claims to hold.
#[verifier::external_body]
fn parse_font_faces(data: Vec<u8>) -> (r: Vec<FontFace>)
    requires
        data@.len() <= MAX_SUBTITLE_FONT_ATTACHMENT_BYTES,
        faces_fit(data@),
    ensures
        all_face_names(r@) == font_faces(data@),
{
    let mut database = fontdb::Database::new();
    database.load_font_data(data);
    database
        .faces()
        .map(|face| FontFace {
            families: face.families.iter().map(|family| family.0.clone()).collect(),
            post_script_name: face.post_script_name.clone(),
        })
        .collect()
}

/// Whether a name of the faces is a name of a font: every family, and every PostScript name that
/// is not empty.
pub open spec fn names_font(faces: Seq<(Seq<Seq<char>>, Seq<char>)>, name: Seq<char>) -> bool {
    exists|i: int|
        #![trigger faces[i]]
        0 <= i < faces.len() && (faces[i].0.contains(name) || (faces[i].1 == name && name.len()
            > 0))
}

/// Whether texts stand in strictly increasing order.
pub open spec fn increasing(texts: Seq<Seq<char>>) -> bool {
    forall|i: int, j: int|
        0 <= i < j < texts.len() ==> crate::text::text_before(#[trigger] texts[i], #[trigger] texts[j])
}

/// The texts of a list.
pub open spec fn texts(list: Seq<String>) -> Seq<Seq<char>> {
    list.map_values(|text: String| text@)
}

fn insert_name(names: &mut Vec<String>, name: &String)
    requires
        increasing(texts(old(names)@)),
    ensures
        increasing(texts(final(names)@)),
        forall|t: Seq<char>| #[trigger] texts(final(names)@).contains(t) <==> texts(
            old(names)@,
        ).contains(t) || t == name@,
{
    let ghost before = texts(names@);
    let mut i: usize = 0;
    while i < names.len() && stands_before(names[i].as_str(), name.as_str())
        invariant
            i <= names@.len(),
            before == texts(names@),
            names@ == old(names)@,
            forall|j: int| 0 <= j < i ==> crate::text::text_before(#[trigger] before[j], name@),
        decreases names@.len() - i,
    {
        i = i + 1;
    }
    if i < names.len() && same_text(names[i].as_str(), name.as_str()) {
        proof {
            assert(before[i as int] == name@);
            assert(before.contains(name@));
        }
        return;
    }
    proof {
        if i < names@.len() {
            assert(before[i as int] == names@[i as int]@);
            crate::text::law_text_order_is_total(before[i as int], name@);
        }
        assert forall|j: int| i <= j < before.len() implies crate::text::text_before(
            name@,
            #[trigger] before[j],
        ) by {
            if j > i {
                assert(crate::text::text_before(before[i as int], before[j]));
                crate::text::law_text_order_is_transitive(name@, before[i as int], before[j]);
            }
        }
    }
    names.insert(i, name.clone());
    proof {
        let after = texts(names@);
        assert(after =~= before.insert(i as int, name@));
        assert forall|a: int, b: int| 0 <= a < b < after.len() implies crate::text::text_before(
            #[trigger] after[a],
            #[trigger] after[b],
        ) by {
            let a0 = if a <= i { a } else { a - 1 };
            let b0 = if b <= i { b } else { b - 1 };
            if a != i && b != i {
                assert(crate::text::text_before(before[a0], before[b0]));
            }
        }
        assert forall|t: Seq<char>| #[trigger] after.contains(t) <==> before.contains(t) || t
            == name@ by {
            if before.contains(t) {
                let k = choose|k: int| 0 <= k < before.len() && before[k] == t;
                let k1 = if k < i { k } else { k + 1 };
                assert(after[k1] == t);
            }
            assert(after[i as int] == name@);
            if after.contains(t) && t != name@ {
                let k = choose|k: int| 0 <= k < after.len() && after[k] == t;
                let k0 = if k < i { k } else { k - 1 };
                assert(before[k0] == t);
            }
        }
    }
}

/// The names of a font: each once, in the order of code points.
pub fn collect_families(faces: &Vec<FontFace>) -> (r: Vec<String>)
    ensures
        increasing(texts(r@)),
        forall|t: Seq<char>| #[trigger] texts(r@).contains(t) <==> names_font(
            all_face_names(faces@),
            t,
        ),
{
    let ghost all = all_face_names(faces@);
    let mut names: Vec<String> = Vec::new();
    let mut i: usize = 0;
    proof {
        assert forall|t: Seq<char>| #[trigger] texts(names@).contains(t) <==> names_font(
            all.take(0),
            t,
        ) by {}
    }
    while i < faces.len()
        invariant
            i <= faces@.len(),
            all == all_face_names(faces@),
            increasing(texts(names@)),
            forall|t: Seq<char>| #[trigger] texts(names@).contains(t) <==> names_font(
                all.take(i as int),
                t,
            ),
        decreases faces@.len() - i,
    {
        let ghost before = texts(names@);
        let ghost families = all[i as int].0;
        let mut j: usize = 0;
        while j < faces[i].families.len()
            invariant
                i < faces@.len(),
                all == all_face_names(faces@),
                families == all[i as int].0,
                families.len() == faces@[i as int].families@.len(),
                j <= families.len(),
                increasing(texts(names@)),
                forall|t: Seq<char>| #[trigger] texts(names@).contains(t) <==> before.contains(t)
                    || families.take(j as int).contains(t),
            decreases families.len() - j,
        {
            let ghost middle = texts(names@);
            insert_name(&mut names, &faces[i].families[j]);
            proof {
                let seen = families.take(j as int);
                let next = families.take(j + 1);
                assert(next =~= seen.push(families[j as int]));
                assert(families[j as int] == faces@[i as int].families@[j as int]@);
                assert forall|t: Seq<char>| #[trigger] texts(names@).contains(t)
                    <==> before.contains(t) || next.contains(t) by {
                    assert(texts(names@).contains(t) <==> middle.contains(t) || t
                        == families[j as int]);
                    assert(next[j as int] == families[j as int]);
                    if seen.contains(t) {
                        let k = choose|k: int| 0 <= k < seen.len() && seen[k] == t;
                        assert(next[k] == t);
                    }
                    if next.contains(t) && t != families[j as int] {
                        let k = choose|k: int| 0 <= k < next.len() && next[k] == t;
                        assert(seen[k] == t);
                    }
                }
            }
            j = j + 1;
        }
        assert(families.take(families.len() as int) =~= families);
        let ghost middle = texts(names@);
        if !faces[i].post_script_name.as_str().is_empty() {
            insert_name(&mut names, &faces[i].post_script_name);
        }
        proof {
            let seen = all.take(i as int);
            let next = all.take(i + 1);
            assert(all[i as int].1 == faces@[i as int].post_script_name@);
            assert(next[i as int] == all[i as int]);
            assert forall|t: Seq<char>| #[trigger] texts(names@).contains(t) <==> names_font(
                next,
                t,
            ) by {
                assert(texts(names@).contains(t) <==> middle.contains(t) || (t == all[i as int].1
                    && t.len() > 0));
                assert(middle.contains(t) <==> before.contains(t) || families.contains(t));
                if names_font(seen, t) {
                    let k = choose|k: int|
                        #![trigger seen[k]]
                        0 <= k < seen.len() && (seen[k].0.contains(t) || (seen[k].1 == t && t.len()
                            > 0));
                    assert(next[k] == seen[k]);
                }
                if names_font(next, t) {
                    let k = choose|k: int|
                        #![trigger next[k]]
                        0 <= k < next.len() && (next[k].0.contains(t) || (next[k].1 == t && t.len()
                            > 0));
                    if k < i {
                        assert(seen[k] == next[k]);
                    }
                }
            }
        }
        i = i + 1;
    }
    assert(all.take(all.len() as int) =~= all);
    names
}

/// Whether a file name ends in `extension`, but for the case of ASCII letters.
pub open spec fn has_extension(name: Seq<char>, extension: Seq<char>) -> bool {
    exists|at: int|
        #[trigger] crate::text::is_last_index_of(name, '.', at)
            && crate::text::same_ignoring_case(name.skip(at + 1), extension)
}

/// Whether a file name has the extension of a font.
pub open spec fn font_name(name: Seq<char>) -> bool {
    has_extension(name, "ttf"@) || has_extension(name, "otf"@) || has_extension(name, "ttc"@)
        || has_extension(name, "otc"@)
}

/// Whether a MIME type is that of a font.
pub open spec fn font_mime(mime: Seq<char>) -> bool {
    crate::text::stands_at(mime, "font/"@, 0) || crate::text::occurs_in(mime, "truetype"@)
        || crate::text::occurs_in(mime, "opentype"@)
}

/// Whether an attachment may be a font: its name, its MIME type or its codec says so.
pub open spec fn font_candidate(
    name: Seq<char>,
    mime_type: Option<String>,
    codec: Option<String>,
) -> bool {
    ||| font_name(name)
    ||| mime_type is Some && font_mime(mime_type->0@)
    ||| codec is Some && (codec->0@ == "ttf"@ || codec->0@ == "otf"@)
}

pub fn is_font_attachment_candidate(
    name: &str,
    mime_type: &Option<String>,
    codec: &Option<String>,
) -> (r: bool)
    ensures
        r == font_candidate(name@, *mime_type, *codec),
{
    let chars = characters(name);
    let named = match last_index_of(&chars, '.') {
        Some(at) => {
            let total: usize = chars.len();
            assert(total == name@.len());
            let extension = name.substring_char(at + 1, total);
            assert(extension@ =~= name@.skip(at + 1));
            assert(crate::text::is_last_index_of(name@, '.', at as int));
            assert forall|k: int| #[trigger] crate::text::is_last_index_of(name@, '.', k) implies k
                == at by {}
            let found = eq_ignore_ascii_case(extension, "ttf") || eq_ignore_ascii_case(
                extension,
                "otf",
            ) || eq_ignore_ascii_case(extension, "ttc") || eq_ignore_ascii_case(extension, "otc");
            assert(found == font_name(name@));
            found
        },
        None => {
            assert forall|k: int| !#[trigger] crate::text::is_last_index_of(name@, '.', k) by {}
            false
        },
    };
    if named {
        return true;
    }
    let typed = match mime_type {
        Some(mime) => starts_with_ignoring_case(mime.as_str(), "font/") || contains_ignoring_case(
            mime.as_str(),
            "truetype",
        ) || contains_ignoring_case(mime.as_str(), "opentype"),
        None => false,
    };
    if typed {
        return true;
    }
    match codec {
        Some(codec) => same_text(codec.as_str(), "ttf") || same_text(codec.as_str(), "otf"),
        None => false,
    }
}

/// A stream that carries an attachment.
#[derive(Clone, Debug, PartialEq, Eq)]
pub struct AttachmentStream {
    pub index: i32,
    pub filename: Option<String>,
    pub mime_type: Option<String>,
    pub codec: Option<String>,
    /// The size of the data as the container states it.
    pub data_size: i32,
    pub data: Option<Vec<u8>>,
}

impl AttachmentStream {
    /// Whether the data is as large as the container states, where that is within bounds.
    pub open spec fn well_formed(self) -> bool {
        self.data is Some && 0 < self.data_size <= MAX_SUBTITLE_FONT_ATTACHMENT_BYTES
            ==> self.data_size <= self.data->0@.len()
    }

    /// The name of the attachment: its file name, or one made from its number.
    pub open spec fn name(self) -> Seq<char> {
        match self.filename {
            Some(filename) => filename@,
            None => "attachment-"@ + crate::text::signed_decimal(self.index as int),
        }
    }

    /// Whether the attachment may be a font and keeps to the limits, with `count` fonts of
    /// `bytes` bytes taken before it.
    pub open spec fn admissible(self, count: usize, bytes: usize) -> bool {
        &&& font_candidate(self.name(), self.mime_type, self.codec)
        &&& self.data is Some
        &&& self.data_size > 0
        &&& count < MAX_SUBTITLE_FONT_ATTACHMENTS
        &&& self.data_size <= MAX_SUBTITLE_FONT_ATTACHMENT_BYTES
        &&& bytes + self.data_size <= MAX_SUBTITLE_FONT_TOTAL_BYTES
    }

    /// The data of the font.
    pub open spec fn font_data(self) -> Seq<u8> {
        self.data->0@.subrange(0, self.data_size as int)
    }

    fn attachment_name(&self) -> (r: String)
        ensures
            r@ == self.name(),
    {
        match &self.filename {
            Some(filename) => filename.clone(),
            None => joined("attachment-", signed_decimal_text(self.index as i64).as_str()),
        }
    }
}

fn leading_bytes(data: &Vec<u8>, count: usize) -> (r: Vec<u8>)
    requires
        count <= data@.len(),
    ensures
        r@ == data@.subrange(0, count as int),
{
    let mut out: Vec<u8> = Vec::new();
    let mut i: usize = 0;
    while i < count
        invariant
            i <= count <= data@.len(),
            out@ =~= data@.subrange(0, i as int),
        decreases count - i,
    {
        out.push(data[i]);
        i = i + 1;
    }
    out
}

/// The font of an attachment, if it is one and keeps to the limits, with `accepted_count` fonts of
/// `accepted_bytes` bytes taken before it. A file in which the parser finds no face is no font.
pub fn subtitle_font_attachment(
    stream: &AttachmentStream,
    accepted_count: usize,
    accepted_bytes: usize,
) -> (r: Option<SubtitleFontAttachment>)
    requires
        stream.well_formed(),
    ensures
        r is Some <==> stream.admissible(accepted_count, accepted_bytes) && faces_fit(
            stream.font_data(),
        ) && font_faces(stream.font_data()).len() > 0,
        r matches Some(font) ==> {
            &&& font.name@ == stream.name()
            &&& font.mime_type == stream.mime_type
            &&& font.data@ == stream.font_data()
            &&& increasing(texts(font.families@))
            &&& forall|t: Seq<char>| #[trigger] texts(font.families@).contains(t) <==> names_font(
                font_faces(stream.font_data()),
                t,
            )
        },
{
    let name = stream.attachment_name();
    if !is_font_attachment_candidate(name.as_str(), &stream.mime_type, &stream.codec) {
        return None;
    }
    let data = match &stream.data {
        Some(data) => data,
        None => {
            return None;
        },
    };
    if stream.data_size <= 0 {
        return None;
    }
    let size: usize = stream.data_size as usize;
    if accepted_count >= MAX_SUBTITLE_FONT_ATTACHMENTS {
        return None;
    }
    if size > MAX_SUBTITLE_FONT_ATTACHMENT_BYTES {
        return None;
    }
    match accepted_bytes.checked_add(size) {
        Some(total) => {
            if total > MAX_SUBTITLE_FONT_TOTAL_BYTES {
                return None;
            }
        },
        None => {
            return None;
        },
    }
    let bytes = leading_bytes(data, size);
    if !can_list_faces(&bytes) {
        return None;
    }
    let faces = parse_font_faces(leading_bytes(data, size));
    assert(all_face_names(faces@).len() == faces@.len());
    if faces.len() == 0 {
        return None;
    }
    let families = collect_families(&faces);
    Some(
        SubtitleFontAttachment {
            name,
            mime_type: copied_text(&stream.mime_type),
            families,
            data: bytes,
        },
    )
}

/// An attachment is admissible when it looks like a font, has bytes, and keeps to the limits of one
/// font and of all.
pub proof fn law_an_admissible_font_keeps_to_the_limits(
    attachment: AttachmentStream,
    count: usize,
    bytes: usize,
)
    requires
        font_candidate(attachment.name(), attachment.mime_type, attachment.codec),
    ensures
        attachment.admissible(count, bytes) <==> (attachment.data is Some && 0
            < attachment.data_size <= 67_108_864 && count < 256 && bytes + attachment.data_size
            <= 268_435_456),
{
}

/// The data of a font is the front of its attachment, as long as the container states.
pub proof fn law_the_data_of_a_font_is_that_of_its_attachment(attachment: AttachmentStream, i: int)
    requires
        attachment.data is Some,
        0 <= attachment.data_size <= attachment.data->0@.len(),
        0 <= i < attachment.data_size,
    ensures
        attachment.font_data().len() == attachment.data_size,
        attachment.font_data()[i] == attachment.data->0@[i],
{
}

/// A collection states its faces as a big-endian number behind its mark, and four bytes are needed
/// for each; any other file has room for what it holds.
pub proof fn law_a_collection_has_room_for_its_faces(data: Seq<u8>, faces: nat)
    ensures
        data.len() < 12 ==> faces_fit(data),
        data.len() >= 12 && data[0] != 0x74 ==> faces_fit(data),
        data.len() >= 12 && data[0] == 0x74 && data[1] == 0x74 && data[2] == 0x63 && data[3] == 0x66
            && data[8] == 0 && data[9] == 0 && data[10] == 0 && data[11] == faces ==> (faces_fit(
            data,
        ) <==> 12 + 4 * faces <= data.len()),
        data.len() >= 12 && data[0] == 0x74 && data[1] == 0x74 && data[2] == 0x63 && data[3] == 0x66
            && data[8] == faces && faces > 0 && data.len() < 0x400_0000 ==> !faces_fit(data),
{
}

/// Every family of every face names a font, and a PostScript name does where it is not empty.
pub proof fn law_every_name_of_a_face_names_the_font(
    faces: Seq<(Seq<Seq<char>>, Seq<char>)>,
    i: int,
    j: int,
)
    requires
        0 <= i < faces.len(),
    ensures
        0 <= j < faces[i].0.len() ==> names_font(faces, faces[i].0[j]),
        faces[i].1.len() > 0 ==> names_font(faces, faces[i].1),
        faces.len() == 1 && faces[0].0.len() == 0 ==> !names_font(faces, Seq::<char>::empty()),
{
}

/// A file is known as a font by its extension, whatever stands in front of it, by its type, and by
/// its codec.
pub proof fn law_how_a_font_is_known(
    stem: Seq<char>,
    subtype: Seq<char>,
    mime_type: Option<String>,
    codec: Option<String>,
)
    ensures
        font_name(stem.push('.') + "ttf"@),
        font_name(stem.push('.') + "otf"@),
        font_mime("font/"@ + subtype),
        font_candidate(stem.push('.') + "otf"@, mime_type, codec),
        mime_type is Some && mime_type->0@ == "font/"@ + subtype ==> font_candidate(
            stem,
            mime_type,
            codec,
        ),
        codec is Some && codec->0@ == "ttf"@ ==> font_candidate(stem, mime_type, codec),
{
    reveal_strlit("ttf");
    reveal_strlit("otf");
    reveal_strlit("font/");
    crate::text::law_the_last_place_of_a_character(stem, '.', "ttf"@);
    crate::text::law_the_last_place_of_a_character(stem, '.', "otf"@);
    let at = stem.len() as int;
    assert((stem.push('.') + "ttf"@).skip(at + 1) =~= "ttf"@);
    assert((stem.push('.') + "otf"@).skip(at + 1) =~= "otf"@);
    assert(crate::text::is_last_index_of(stem.push('.') + "ttf"@, '.', at));
    assert(crate::text::is_last_index_of(stem.push('.') + "otf"@, '.', at));
    assert(("font/"@ + subtype).subrange(0, 5) =~= "font/"@);
    assert(crate::text::stands_at("font/"@ + subtype, "font/"@, 0));
}

} // verus!
