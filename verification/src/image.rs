//! Images attached to prompts: their media type and their base64 text.
use vstd::prelude::*;
use base64::Engine;
use crate::text::{chars_of, decimal, push_decimal, push_str, string_from_str, text_equals};

verus! {

/// A character of the standard base64 alphabet.
pub open spec fn b64_char(v: nat) -> char {
    if v < 26 {
        (65 + v) as char
    } else if v < 52 {
        (71 + v) as char
    } else if v < 62 {
        (v - 4) as char
    } else if v == 62 {
        '+'
    } else {
        '/'
    }
}

/// Standard base64 with padding (RFC 4648): each three bytes become four
/// characters, and a final one or two bytes are padded with `=`.
pub open spec fn base64_standard(d: Seq<u8>) -> Seq<char>
    decreases d.len(),
{
    if d.len() == 0 {
        Seq::empty()
    } else if d.len() == 1 {
        seq![b64_char((d[0] / 4) as nat), b64_char(((d[0] % 4) * 16) as nat), '=', '=']
    } else if d.len() == 2 {
        seq![
            b64_char((d[0] / 4) as nat),
            b64_char(((d[0] % 4) * 16 + d[1] / 16) as nat),
            b64_char(((d[1] % 16) * 4) as nat),
            '=',
        ]
    } else {
        seq![
            b64_char((d[0] / 4) as nat),
            b64_char(((d[0] % 4) * 16 + d[1] / 16) as nat),
            b64_char(((d[1] % 16) * 4 + d[2] / 64) as nat),
            b64_char((d[2] % 64) as nat),
        ] + base64_standard(d.skip(3))
    }
}

/// Encodes bytes with the base64 crate's `STANDARD` engine, which implements
/// the standard alphabet with padding.
#[verifier::external_body]
pub(crate) fn base64_encode(data: &[u8]) -> (s: String)
    ensures
        s@ == base64_standard(data@),
{
    base64::engine::general_purpose::STANDARD.encode(data)
}

/// The media type of an image file by its extension; PNG when the
/// extension is missing or unknown.
pub open spec fn media_type(ext: Option<Seq<char>>) -> Seq<char> {
    match ext {
        Some(e) => if e == "png"@ {
            "image/png"@
        } else if e == "jpg"@ || e == "jpeg"@ {
            "image/jpeg"@
        } else if e == "gif"@ {
            "image/gif"@
        } else if e == "webp"@ {
            "image/webp"@
        } else {
            "image/png"@
        },
        None => "image/png"@,
    }
}

/// The media type for an image file extension.
pub fn media_type_for_extension(ext: Option<&str>) -> (r: String)
    ensures
        r@ == media_type(match ext { Some(e) => Some(e@), None => None }),
{
    proof {
        reveal_strlit("png");
        reveal_strlit("jpg");
        reveal_strlit("jpeg");
        reveal_strlit("gif");
        reveal_strlit("webp");
        reveal_strlit("image/png");
        reveal_strlit("image/jpeg");
        reveal_strlit("image/gif");
        reveal_strlit("image/webp");
    }
    match ext {
        Some(e) => {
            if text_equals(e, "png") {
                string_from_str("image/png")
            } else if text_equals(e, "jpg") || text_equals(e, "jpeg") {
                string_from_str("image/jpeg")
            } else if text_equals(e, "gif") {
                string_from_str("image/gif")
            } else if text_equals(e, "webp") {
                string_from_str("image/webp")
            } else {
                string_from_str("image/png")
            }
        },
        None => string_from_str("image/png"),
    }
}

/// An image file's content as base64, with its media type.
pub fn encode_image(data: &[u8], ext: Option<&str>) -> (r: (String, String))
    ensures
        r.0@ == base64_standard(data@),
        r.1@ == media_type(match ext { Some(e) => Some(e@), None => None }),
{
    (base64_encode(data), media_type_for_extension(ext))
}


/// An image attached to a prompt, after reading its file.
pub enum ImageLoad {
    /// Read and encoded: base64 data and media type.
    Loaded { data: String, media_type: String },
    /// The file could not be read; the path as shown to the user.
    Failed { path: String },
}

/// A block of a user message in the stream-JSON format.
pub enum ContentBlock {
    Text { text: String },
    Image { media_type: String, data: String },
}

/// The blocks as the contracts see them: `(is_image, text or data, media type)`.
pub open spec fn block_view(b: ContentBlock) -> (bool, Seq<char>, Seq<char>) {
    match b {
        ContentBlock::Text { text } => (false, text@, Seq::empty()),
        ContentBlock::Image { media_type, data } => (true, data@, media_type@),
    }
}

/// The blocks for the `index`-th of `count` images: a label first when
/// there are several, then the image; a note in place of an unreadable one.
pub open spec fn image_blocks(img: ImageLoad, index: nat, count: nat) -> Seq<(bool, Seq<char>, Seq<char>)> {
    match img {
        ImageLoad::Loaded { data, media_type } => (if count > 1 {
            seq![(false, "Image "@ + decimal(index + 1) + ":"@, Seq::<char>::empty())]
        } else {
            Seq::empty()
        }) + seq![(true, data@, media_type@)],
        ImageLoad::Failed { path } => seq![(false, "[Failed to load image: "@ + path@ + "]"@, Seq::<char>::empty())],
    }
}

/// The blocks of all images, in order.
pub open spec fn all_image_blocks(imgs: Seq<ImageLoad>, count: nat) -> Seq<(bool, Seq<char>, Seq<char>)>
    decreases imgs.len(),
{
    if imgs.len() == 0 {
        Seq::empty()
    } else {
        all_image_blocks(imgs.drop_last(), count) + image_blocks(imgs.last(), (imgs.len() - 1) as nat, count)
    }
}

/// The content of a user message: the images first (the agent reads them
/// best before the text), then the prompt when it is not empty.
pub open spec fn prompt_blocks(prompt: Seq<char>, imgs: Seq<ImageLoad>) -> Seq<(bool, Seq<char>, Seq<char>)> {
    all_image_blocks(imgs, imgs.len()) + (if prompt.len() > 0 {
        seq![(false, prompt, Seq::<char>::empty())]
    } else {
        Seq::empty()
    })
}

proof fn lemma_image_blocks_nonempty_text(imgs: Seq<ImageLoad>, count: nat)
    ensures
        forall|i: int| 0 <= i < all_image_blocks(imgs, count).len() ==> (!(#[trigger] all_image_blocks(imgs, count)[i]).0
            ==> all_image_blocks(imgs, count)[i].1.len() > 0),
    decreases imgs.len(),
{
    reveal_strlit(":");
    reveal_strlit("]");
    if imgs.len() > 0 {
        let d = imgs.drop_last();
        lemma_image_blocks_nonempty_text(d, count);
        let x = all_image_blocks(d, count);
        let y = image_blocks(imgs.last(), (imgs.len() - 1) as nat, count);
        assert forall|i: int| 0 <= i < y.len() implies (!(#[trigger] y[i]).0 ==> y[i].1.len() > 0) by {
            match imgs.last() {
                ImageLoad::Loaded { data, media_type } => {
                    if count > 1 && i == 0 {
                        assert(y[0].1 == "Image "@ + decimal((imgs.len() - 1) as nat + 1) + ":"@);
                    }
                },
                ImageLoad::Failed { path } => {
                    assert(y[0].1 == "[Failed to load image: "@ + path@ + "]"@);
                },
            }
        }
        assert forall|i: int| 0 <= i < (x + y).len() implies (!(#[trigger] (x + y)[i]).0 ==> (x + y)[i].1.len() > 0) by {
            if i < x.len() {
                assert((x + y)[i] == x[i]);
            } else {
                assert((x + y)[i] == y[i - x.len()]);
            }
        }
    }
}

/// The prompt's text is one block after the images' blocks, present
/// exactly when the prompt is not empty: with a prompt, the blocks are those
/// of the same images without a prompt, then the prompt. No text block is
/// ever empty, and a lone image without a prompt is a lone image block.
pub proof fn lemma_prompt_blocks_text(prompt: Seq<char>, imgs: Seq<ImageLoad>, data: String, media_type: String)
    ensures
        prompt.len() > 0 ==> prompt_blocks(prompt, imgs) == prompt_blocks(Seq::empty(), imgs).push((false, prompt, Seq::empty())),
        forall|i: int| 0 <= i < prompt_blocks(prompt, imgs).len() ==> (!(#[trigger] prompt_blocks(prompt, imgs)[i]).0
            ==> prompt_blocks(prompt, imgs)[i].1.len() > 0),
        prompt_blocks(prompt, Seq::empty()).len() == (if prompt.len() > 0 { 1nat } else { 0nat }),
        prompt_blocks(Seq::empty(), seq![ImageLoad::Loaded { data, media_type }]) == seq![(true, data@, media_type@)],
{
    let x = all_image_blocks(imgs, imgs.len());
    lemma_image_blocks_nonempty_text(imgs, imgs.len());
    assert(x + Seq::<(bool, Seq<char>, Seq<char>)>::empty() =~= x);
    if prompt.len() > 0 {
        assert(x + seq![(false, prompt, Seq::<char>::empty())] =~= x.push((false, prompt, Seq::<char>::empty())));
    }
    let p = prompt_blocks(prompt, imgs);
    assert forall|i: int| 0 <= i < p.len() implies (!(#[trigger] p[i]).0 ==> p[i].1.len() > 0) by {
        if i < x.len() {
            assert(p[i] == x[i]);
        }
    }
    let one = seq![ImageLoad::Loaded { data, media_type }];
    assert(one.drop_last() =~= Seq::<ImageLoad>::empty());
    assert(all_image_blocks(one.drop_last(), 1) =~= Seq::<(bool, Seq<char>, Seq<char>)>::empty());
    assert(all_image_blocks(one, 1) =~= seq![(true, data@, media_type@)]);
    assert(prompt_blocks(Seq::empty(), one) =~= seq![(true, data@, media_type@)]);
}

/// Several images are labelled by their position: two read images give
/// `Image 1:`, the first image, `Image 2:`, the second image; an image that
/// could not be read gives a note naming its path instead.
pub proof fn lemma_two_images_labelled(d1: String, m1: String, d2: String, m2: String, path: String)
    ensures
        prompt_blocks(
            Seq::empty(),
            seq![ImageLoad::Loaded { data: d1, media_type: m1 }, ImageLoad::Loaded { data: d2, media_type: m2 }],
        ) == seq![
            (false, "Image "@ + decimal(1) + ":"@, Seq::<char>::empty()),
            (true, d1@, m1@),
            (false, "Image "@ + decimal(2) + ":"@, Seq::<char>::empty()),
            (true, d2@, m2@),
        ],
        prompt_blocks(Seq::empty(), seq![ImageLoad::Failed { path }]) == seq![
            (false, "[Failed to load image: "@ + path@ + "]"@, Seq::<char>::empty()),
        ],
{
    let two = seq![ImageLoad::Loaded { data: d1, media_type: m1 }, ImageLoad::Loaded { data: d2, media_type: m2 }];
    assert(two.drop_last() =~= seq![ImageLoad::Loaded { data: d1, media_type: m1 }]);
    assert(two.drop_last().drop_last() =~= Seq::<ImageLoad>::empty());
    let e = Seq::<(bool, Seq<char>, Seq<char>)>::empty();
    assert(all_image_blocks(two.drop_last().drop_last(), 2) == e);
    let b1 = image_blocks(ImageLoad::Loaded { data: d1, media_type: m1 }, 0, 2);
    let b2 = image_blocks(ImageLoad::Loaded { data: d2, media_type: m2 }, 1, 2);
    assert(two.drop_last().last() == ImageLoad::Loaded { data: d1, media_type: m1 });
    assert(two.last() == ImageLoad::Loaded { data: d2, media_type: m2 });
    assert(all_image_blocks(two.drop_last(), 2) == e + b1);
    assert(all_image_blocks(two, 2) == e + b1 + b2);
    assert(b1 =~= seq![(false, "Image "@ + decimal(1) + ":"@, Seq::<char>::empty()), (true, d1@, m1@)]);
    assert(b2 =~= seq![(false, "Image "@ + decimal(2) + ":"@, Seq::<char>::empty()), (true, d2@, m2@)]);
    assert(all_image_blocks(two, 2) =~= seq![
        (false, "Image "@ + decimal(1) + ":"@, Seq::<char>::empty()),
        (true, d1@, m1@),
        (false, "Image "@ + decimal(2) + ":"@, Seq::<char>::empty()),
        (true, d2@, m2@),
    ]);
    assert(all_image_blocks(two, 2) + e =~= all_image_blocks(two, 2));
    let one = seq![ImageLoad::Failed { path }];
    assert(one.drop_last() =~= Seq::<ImageLoad>::empty());
    assert(all_image_blocks(one.drop_last(), 1) == e);
    assert(all_image_blocks(one, 1) + e =~= all_image_blocks(one, 1));
}

/// Builds the content blocks of a user message.
pub fn user_prompt_blocks(prompt: &str, images: &Vec<ImageLoad>) -> (r: Vec<ContentBlock>)
    requires
        images@.len() < usize::MAX,
    ensures
        r@.map_values(|b: ContentBlock| block_view(b)) == prompt_blocks(prompt@, images@),
{
    let mut out: Vec<ContentBlock> = Vec::new();
    let n = images.len();
    let mut i: usize = 0;
    while i < n
        invariant
            i <= n,
            n == images@.len(),
            n < usize::MAX,
            out@.map_values(|b: ContentBlock| block_view(b)) == all_image_blocks(images@.take(i as int), n as nat),
        decreases n - i,
    {
        let ghost before = out@.map_values(|b: ContentBlock| block_view(b));
        proof {
            let t = images@.take(i + 1);
            assert(t.drop_last() =~= images@.take(i as int));
            assert(t.last() == images@[i as int]);
        }
        match &images[i] {
            ImageLoad::Loaded { data, media_type } => {
                if n > 1 {
                    let mut label = string_from_str("Image ");
                    push_decimal(&mut label, i + 1);
                    push_str(&mut label, ":");
                    out.push(ContentBlock::Text { text: label });
                }
                out.push(ContentBlock::Image { media_type: media_type.clone(), data: data.clone() });
            },
            ImageLoad::Failed { path } => {
                let mut note = string_from_str("[Failed to load image: ");
                push_str(&mut note, path.as_str());
                push_str(&mut note, "]");
                out.push(ContentBlock::Text { text: note });
            },
        }
        proof {
            assert(out@.map_values(|b: ContentBlock| block_view(b)) =~= before + image_blocks(images@[i as int], i as nat, n as nat));
        }
        i = i + 1;
    }
    assert(images@.take(n as int) =~= images@);
    let ghost before = out@.map_values(|b: ContentBlock| block_view(b));
    if chars_of(prompt).len() > 0 {
        out.push(ContentBlock::Text { text: string_from_str(prompt) });
        assert(out@.map_values(|b: ContentBlock| block_view(b)) =~= before + seq![(false, prompt@, Seq::<char>::empty())]);
    } else {
        assert(before + Seq::<(bool, Seq<char>, Seq<char>)>::empty() =~= before);
    }
    out
}

} // verus!

