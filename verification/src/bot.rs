//! What the bot does with a message: which picture of it is meant, and what
//! is answered at each step.
use crate::commands::{Commands, Mode, Opt};
use crate::errors::Error;
use vstd::prelude::*;

verus! {

/// One size of a photo, as a message offers it. Sizes of one photo share
/// their `unique_id`.
#[derive(Debug)]
pub struct Photo {
    pub id: String,
    pub unique_id: String,
    pub height: u32,
}

impl Clone for Photo {
    fn clone(&self) -> (r: Photo)
        ensures
            r == *self,
    {
        Photo { id: self.id.clone(), unique_id: self.unique_id.clone(), height: self.height }
    }
}

/// Whether `photos[i]` is the size that stands for its photo among the first
/// `n` sizes: the first of the tallest of those that share its `unique_id`.
#[verifier::opaque]
pub open spec fn is_best_of(photos: Seq<Photo>, n: int, i: int) -> bool {
    &&& 0 <= i < n <= photos.len()
    &&& forall|j: int|
        0 <= j < n && #[trigger] photos[j].unique_id@ == photos[i].unique_id@ ==> photos[j].height
            < photos[i].height || (photos[j].height == photos[i].height && i <= j)
}

/// Whether `p` is a size that stands for its photo among the first `n` of
/// `photos`.
pub open spec fn stands_in(p: Photo, photos: Seq<Photo>, n: int) -> bool {
    exists|i: int| #[trigger] is_best_of(photos, n, i) && photos[i] == p
}

/// Whether `kept` holds, once each and nothing else, the sizes that stand
/// for the photos among the first `n` of `photos`.
pub open spec fn holds_the_best(kept: Seq<Photo>, photos: Seq<Photo>, n: int) -> bool {
    &&& forall|k: int| 0 <= k < kept.len() ==> stands_in(#[trigger] kept[k], photos, n)
    &&& forall|i: int| #[trigger] is_best_of(photos, n, i) ==> kept.contains(photos[i])
    &&& forall|k: int, l: int|
        0 <= k < l < kept.len() ==> (#[trigger] kept[k]).unique_id@ != (
        #[trigger] kept[l]).unique_id@
}

/// Where `unique_id` is found in `kept`.
fn position(kept: &Vec<Photo>, unique_id: &String) -> (r: Option<usize>)
    ensures
        match r {
            Some(k) => k < kept@.len() && kept@[k as int].unique_id@ == unique_id@,
            None => forall|k: int|
                0 <= k < kept@.len() ==> (#[trigger] kept@[k]).unique_id@ != unique_id@,
        },
{
    let mut k: usize = 0;
    while k < kept.len()
        invariant
            k <= kept@.len(),
            forall|l: int| 0 <= l < k ==> (#[trigger] kept@[l]).unique_id@ != unique_id@,
        decreases kept@.len() - k,
    {
        if kept[k].unique_id == *unique_id {
            return Some(k);
        }
        k += 1;
    }
    None
}

/// Of every photo its tallest size, and of equally tall ones the first.
pub fn best_photos(photos: &Vec<Photo>) -> (r: Vec<Photo>)
    ensures
        holds_the_best(r@, photos@, photos@.len() as int),
{
    let mut kept: Vec<Photo> = Vec::new();
    let mut n: usize = 0;
    proof {
        reveal(is_best_of);
    }
    while n < photos.len()
        invariant
            n <= photos@.len(),
            holds_the_best(kept@, photos@, n as int),
        decreases photos@.len() - n,
    {
        let ghost before = kept@;
        let photo = &photos[n];
        match position(&kept, &photo.unique_id) {
            Some(k) => {
                if photo.height > kept[k].height {
                    kept.set(k, photo.clone());
                    proof {
                        lemma_taller_takes_over(before, kept@, photos@, n as int, k as int);
                    }
                } else {
                    proof {
                        lemma_not_taller_changes_nothing(before, photos@, n as int, k as int);
                    }
                }
            },
            None => {
                kept.push(photo.clone());
                proof {
                    lemma_new_photo_is_added(before, kept@, photos@, n as int);
                }
            },
        }
        n += 1;
    }
    kept
}

/// What it means to stand for a photo: no size of the photo is taller, and
/// none as tall comes earlier.
proof fn lemma_best_leads(photos: Seq<Photo>, n: int, i: int, j: int)
    requires
        is_best_of(photos, n, i),
        0 <= j < n,
        photos[j].unique_id@ == photos[i].unique_id@,
    ensures
        0 <= i < n <= photos.len(),
        photos[j].height < photos[i].height || (photos[j].height == photos[i].height && i <= j),
{
    reveal(is_best_of);
}

/// A size that stands for a photo is one of the sizes.
proof fn lemma_best_is_there(photos: Seq<Photo>, n: int, i: int)
    requires
        is_best_of(photos, n, i),
    ensures
        0 <= i < n <= photos.len(),
{
    reveal(is_best_of);
}

/// One photo has one size that stands for it.
proof fn lemma_best_is_unique(photos: Seq<Photo>, n: int, a: int, b: int)
    requires
        is_best_of(photos, n, a),
        is_best_of(photos, n, b),
        photos[a].unique_id@ == photos[b].unique_id@,
    ensures
        a == b,
{
    reveal(is_best_of);
    lemma_best_leads(photos, n, a, b);
    lemma_best_leads(photos, n, b, a);
}

/// A size that stands for its photo goes on doing so when a size comes that
/// is of another photo, or is not taller.
proof fn lemma_best_stays(photos: Seq<Photo>, n: int, i: int)
    requires
        is_best_of(photos, n, i),
        n < photos.len(),
        photos[n].unique_id@ != photos[i].unique_id@ || photos[n].height <= photos[i].height,
    ensures
        is_best_of(photos, n + 1, i),
{
    reveal(is_best_of);
}

/// A size that stands for its photo, and is not the last, stood for it
/// before the last came.
proof fn lemma_best_stood(photos: Seq<Photo>, n: int, i: int)
    requires
        is_best_of(photos, n + 1, i),
        i != n,
    ensures
        is_best_of(photos, n, i),
{
    reveal(is_best_of);
}

/// A size taller than all earlier sizes of its photo stands for it.
proof fn lemma_last_is_best(photos: Seq<Photo>, n: int)
    requires
        0 <= n < photos.len(),
        forall|j: int|
            0 <= j < n && #[trigger] photos[j].unique_id@ == photos[n].unique_id@
                ==> photos[j].height < photos[n].height,
    ensures
        is_best_of(photos, n + 1, n),
{
    reveal(is_best_of);
}

/// Among the first `n` sizes, the one that stands for the photo of size `j`.
proof fn choose_best(photos: Seq<Photo>, n: int, j: int) -> (b: int)
    requires
        0 <= j < n <= photos.len(),
    ensures
        is_best_of(photos, n, b),
        photos[b].unique_id@ == photos[j].unique_id@,
    decreases n,
{
    reveal(is_best_of);
    if n == 1 {
        0
    } else if j == n - 1 {
        if exists|e: int| 0 <= e < n - 1 && photos[e].unique_id@ == photos[j].unique_id@ {
            let e = choose|e: int| 0 <= e < n - 1 && photos[e].unique_id@ == photos[j].unique_id@;
            let b = choose_best(photos, n - 1, e);
            if photos[j].height > photos[b].height {
                j
            } else {
                b
            }
        } else {
            j
        }
    } else {
        let b = choose_best(photos, n - 1, j);
        if photos[n - 1].unique_id@ == photos[j].unique_id@ && photos[n - 1].height
            > photos[b].height {
            n - 1
        } else {
            b
        }
    }
}

proof fn lemma_new_photo_is_added(before: Seq<Photo>, after: Seq<Photo>, photos: Seq<Photo>, n: int)
    requires
        0 <= n < photos.len(),
        holds_the_best(before, photos, n),
        forall|k: int| 0 <= k < before.len() ==> (#[trigger] before[k]).unique_id@ != photos[n].unique_id@,
        after == before.push(photos[n]),
    ensures
        holds_the_best(after, photos, n + 1),
{
    let next = n + 1;
    // no earlier size shares the new one's photo
    assert forall|j: int|
        0 <= j < n && #[trigger] photos[j].unique_id@ == photos[n].unique_id@ implies photos[j].height
        < photos[n].height by {
        let b = choose_best(photos, n, j);
        assert(before.contains(photos[b]));
        let k = choose|k: int| 0 <= k < before.len() && before[k] == photos[b];
        assert(before[k].unique_id@ == photos[n].unique_id@);
    }
    lemma_last_is_best(photos, n);
    assert forall|k: int| 0 <= k < after.len() implies stands_in(#[trigger] after[k], photos, next) by {
        if k < before.len() {
            assert(stands_in(before[k], photos, n));
            let i = choose|i: int| #[trigger] is_best_of(photos, n, i) && photos[i] == before[k];
            lemma_best_stays(photos, n, i);
            assert(is_best_of(photos, next, i) && photos[i] == after[k]);
        } else {
            assert(is_best_of(photos, next, n) && photos[n] == after[k]);
        }
    }
    assert forall|i: int| #[trigger] is_best_of(photos, next, i) implies after.contains(
        photos[i],
    ) by {
        if i == n {
            assert(after[before.len() as int] == photos[n]);
        } else {
            lemma_best_stood(photos, n, i);
            assert(before.contains(photos[i]));
            let k = choose|k: int| 0 <= k < before.len() && before[k] == photos[i];
            assert(after[k] == photos[i]);
        }
    }
    assert forall|k: int, l: int| 0 <= k < l < after.len() implies (#[trigger] after[k]).unique_id@
        != (#[trigger] after[l]).unique_id@ by {
        if l < before.len() {
            assert(before[k].unique_id@ != before[l].unique_id@);
        } else {
            assert(after[k] == before[k]);
        }
    }
}

proof fn lemma_taller_takes_over(
    before: Seq<Photo>,
    after: Seq<Photo>,
    photos: Seq<Photo>,
    n: int,
    k: int,
)
    requires
        0 <= n < photos.len(),
        0 <= k < before.len(),
        holds_the_best(before, photos, n),
        before[k].unique_id@ == photos[n].unique_id@,
        photos[n].height > before[k].height,
        after == before.update(k, photos[n]),
    ensures
        holds_the_best(after, photos, n + 1),
{
    let next = n + 1;
    assert(stands_in(before[k], photos, n));
    let was = choose|i: int| #[trigger] is_best_of(photos, n, i) && photos[i] == before[k];
    assert forall|j: int|
        0 <= j < n && #[trigger] photos[j].unique_id@ == photos[n].unique_id@ implies photos[j].height
        < photos[n].height by {
        lemma_best_leads(photos, n, was, j);
    }
    lemma_last_is_best(photos, n);
    assert forall|m: int| 0 <= m < after.len() implies stands_in(#[trigger] after[m], photos, next) by {
        if m == k {
            assert(is_best_of(photos, next, n) && photos[n] == after[m]);
        } else {
            assert(stands_in(before[m], photos, n));
            let i = choose|i: int| #[trigger] is_best_of(photos, n, i) && photos[i] == before[m];
            if m < k {
                assert(before[m].unique_id@ != before[k].unique_id@);
            } else {
                assert(before[k].unique_id@ != before[m].unique_id@);
            }
            lemma_best_stays(photos, n, i);
            assert(is_best_of(photos, next, i) && photos[i] == after[m]);
        }
    }
    assert forall|i: int| #[trigger] is_best_of(photos, next, i) implies after.contains(
        photos[i],
    ) by {
        if i == n {
            assert(after[k] == photos[n]);
        } else {
            lemma_best_stood(photos, n, i);
            assert(before.contains(photos[i]));
            let m = choose|m: int| 0 <= m < before.len() && before[m] == photos[i];
            if photos[i].unique_id@ == photos[n].unique_id@ {
                lemma_best_leads(photos, next, i, n);
                lemma_best_leads(photos, n, was, i);
            }
            assert(m != k);
            assert(after[m] == photos[i]);
        }
    }
    assert forall|a: int, b: int| 0 <= a < b < after.len() implies (#[trigger] after[a]).unique_id@
        != (#[trigger] after[b]).unique_id@ by {
        assert(before[a].unique_id@ != before[b].unique_id@);
    }
}

proof fn lemma_not_taller_changes_nothing(kept: Seq<Photo>, photos: Seq<Photo>, n: int, k: int)
    requires
        0 <= n < photos.len(),
        0 <= k < kept.len(),
        holds_the_best(kept, photos, n),
        kept[k].unique_id@ == photos[n].unique_id@,
        photos[n].height <= kept[k].height,
    ensures
        holds_the_best(kept, photos, n + 1),
{
    let next = n + 1;
    assert(stands_in(kept[k], photos, n));
    let was = choose|i: int| #[trigger] is_best_of(photos, n, i) && photos[i] == kept[k];
    lemma_best_is_there(photos, n, was);
    lemma_best_stays(photos, n, was);
    assert forall|m: int| 0 <= m < kept.len() implies stands_in(#[trigger] kept[m], photos, next) by {
        assert(stands_in(kept[m], photos, n));
        let i = choose|i: int| #[trigger] is_best_of(photos, n, i) && photos[i] == kept[m];
        if m < k {
            assert(kept[m].unique_id@ != kept[k].unique_id@);
        } else if k < m {
            assert(kept[k].unique_id@ != kept[m].unique_id@);
        }
        lemma_best_stays(photos, n, i);
        assert(is_best_of(photos, next, i) && photos[i] == kept[m]);
    }
    assert forall|i: int| #[trigger] is_best_of(photos, next, i) implies kept.contains(
        photos[i],
    ) by {
        if i == n {
            lemma_best_is_unique(photos, next, was, n);
        }
        lemma_best_stood(photos, n, i);
        assert(kept.contains(photos[i]));
    }
}

/// A file that a message carries.
#[derive(Debug)]
pub struct Document {
    pub id: String,
    /// Whether the file says of itself that it is an image.
    pub is_image: bool,
}

/// A sticker that a message carries.
#[derive(Debug)]
pub struct Sticker {
    pub id: String,
    pub is_animated: bool,
}

/// What a message carries that may be a picture.
#[derive(Debug)]
pub struct Attachments {
    pub document: Option<Document>,
    pub photo: Option<Vec<Photo>>,
    pub sticker: Option<Sticker>,
}

/// Whether `id` may be given as the picture of `message`: the document if
/// it is an image; else a size that stands for one of the photos; else the
/// sticker if it does not move.
pub open spec fn is_picture_of(message: Attachments, id: Option<String>) -> bool {
    if message.document is Some && message.document->0.is_image {
        id == Some(message.document->0.id)
    } else if message.photo is Some && message.photo->0@.len() > 0 {
        let photos = message.photo->0@;
        id is Some && exists|i: int| #[trigger]
            is_best_of(photos, photos.len() as int, i) && photos[i].id == id->0
    } else if message.sticker is Some && !message.sticker->0.is_animated {
        id == Some(message.sticker->0.id)
    } else {
        id is None
    }
}

/// The file of the picture that a message carries.
pub fn image_from_message(message: &Attachments) -> (r: Option<String>)
    ensures
        is_picture_of(*message, r),
{
    if let Some(document) = &message.document {
        if document.is_image {
            return Some(document.id.clone());
        }
    }
    if let Some(photos) = &message.photo {
        let best = best_photos(photos);
        if best.len() > 0 {
            proof {
                assert(stands_in(best@[0], photos@, photos@.len() as int));
                let i = choose|i: int| #[trigger]
                    is_best_of(photos@, photos@.len() as int, i) && photos@[i] == best@[0];
                lemma_best_is_there(photos@, photos@.len() as int, i);
            }
            return Some(best[0].id.clone());
        }
        proof {
            if photos@.len() > 0 {
                let b = choose_best(photos@, photos@.len() as int, 0);
                assert(best@.contains(photos@[b]));
            }
        }
    }
    if let Some(sticker) = &message.sticker {
        if !sticker.is_animated {
            return Some(sticker.id.clone());
        }
    }
    None
}

/// The largest antialiasing that the bot grants.
pub const MAX_ANTIALIAS_SCALE: u32 = 8;

/// The longest side of a picture that the bot takes.
pub const MAX_SIDE: u32 = 4096;

/// Whether a picture is too large for the bot.
pub fn too_large(width: u32, height: u32) -> (r: bool)
    ensures
        r == (width > MAX_SIDE || height > MAX_SIDE),
{
    width > MAX_SIDE || height > MAX_SIDE
}

/// What the bot does first with a command.
#[derive(Debug)]
pub enum Step {
    /// Tell how the bot is used.
    Explain,
    /// Answer with these words.
    Say(String),
    /// Fetch the file of the picture, then go on with the options.
    Fetch { file_id: String, opt: Opt },
}

/// What the bot does first with `command`, sent in answer to a message that
/// carries `replied`, if it answers one: help for those who ask; the words
/// of the fault for options that could not be read; a request for a picture
/// where none is answered; a refusal of too much antialiasing; else the
/// fetching of the picture.
pub open spec fn first_step(command: Commands, replied: Option<Attachments>, step: Step) -> bool {
    match command {
        Commands::Help | Commands::Start => step is Explain,
        Commands::Ciyaify(Err(words)) => step == Step::Say(words),
        Commands::Ciyaify(Ok(opt)) => match replied {
            None => step matches Step::Say(words) && words@
                == "Please reply to the image you want to ciyaify."@,
            Some(message) => if is_picture_of(message, None) {
                step matches Step::Say(words) && words@
                    == "Please reply to the image you want to ciyaify."@
            } else if opt.antialias_scale > MAX_ANTIALIAS_SCALE {
                step matches Step::Say(words) && words@ == "antialias_scale must <= 8."@
            } else {
                step matches Step::Fetch { file_id, opt: with } && with == opt && is_picture_of(
                    message,
                    Some(file_id),
                )
            },
        },
    }
}

/// What the bot does first with a command.
pub fn begin(command: Commands, replied: &Option<Attachments>) -> (r: Step)
    ensures
        first_step(command, *replied, r),
{
    match command {
        Commands::Help => Step::Explain,
        Commands::Start => Step::Explain,
        Commands::Ciyaify(Err(words)) => Step::Say(words),
        Commands::Ciyaify(Ok(opt)) => match replied {
            None => Step::Say("Please reply to the image you want to ciyaify.".to_owned()),
            Some(message) => match image_from_message(message) {
                None => Step::Say("Please reply to the image you want to ciyaify.".to_owned()),
                Some(file_id) => {
                    if opt.antialias_scale > MAX_ANTIALIAS_SCALE {
                        Step::Say("antialias_scale must <= 8.".to_owned())
                    } else {
                        Step::Fetch { file_id, opt }
                    }
                },
            },
        },
    }
}

/// Why the bot does not draw on what it fetched, if it does not: the models
/// of the detector are missing; or the file is no picture, or one too
/// large; or the detector asked for does not exist.
pub open spec fn objection(opt: Opt, models_found: bool, picture: Option<(u32, u32)>) -> Option<
    Seq<char>,
> {
    if !models_found {
        Some("Unable to load model."@)
    } else {
        match picture {
            None => Some("Invalid image format."@),
            Some((width, height)) => if width > MAX_SIDE || height > MAX_SIDE {
                Some("Invalid image format."@)
            } else if opt.mode == Mode::Standard {
                Some("Standard detector not implemented."@)
            } else {
                None
            },
        }
    }
}

/// The words with which the bot declines to draw on what it fetched, given
/// whether the models were found and the size of the decoded picture, if it
/// could be decoded; none where it draws.
pub fn prepare(opt: &Opt, models_found: bool, picture: Option<(u32, u32)>) -> (r: Option<String>)
    ensures
        r is Some <==> objection(*opt, models_found, picture) is Some,
        r is Some ==> r->0@ == objection(*opt, models_found, picture)->0,
{
    if !models_found {
        return Some("Unable to load model.".to_owned());
    }
    match picture {
        None => Some("Invalid image format.".to_owned()),
        Some((width, height)) => {
            if too_large(width, height) {
                Some("Invalid image format.".to_owned())
            } else {
                match opt.mode {
                    Mode::Standard => Some("Standard detector not implemented.".to_owned()),
                    Mode::Weeb => None,
                }
            }
        },
    }
}

/// The words in which the bot tells of an error: that nothing was found,
/// where no mouth was; else what the error says of itself.
pub open spec fn report_of(e: Error) -> Seq<char> {
    match e {
        Error::NoneError => "No face or mouth detected."@,
        _ => crate::errors::heading(e) + crate::errors::detail(e),
    }
}

/// The words in which the bot tells of an error.
pub fn report(e: &Error) -> (r: String)
    ensures
        r@ == report_of(*e),
{
    match e {
        Error::NoneError => "No face or mouth detected.".to_owned(),
        _ => e.to_string(),
    }
}

} // verus!
