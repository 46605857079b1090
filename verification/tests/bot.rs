use ciya_lib::bot::{
    begin, best_photos, image_from_message, prepare, report, too_large, Attachments, Document,
    Photo, Step, Sticker, MAX_ANTIALIAS_SCALE, MAX_SIDE,
};
use ciya_lib::commands::{CliEmotion, Commands, Mode, Opt};
use ciya_lib::errors::Error;
use ciya_lib::resources::{choose_models, ModelSource};

fn photo(id: &str, unique_id: &str, height: u32) -> Photo {
    Photo { id: String::from(id), unique_id: String::from(unique_id), height }
}

fn ids(photos: &[Photo]) -> Vec<&str> {
    let mut found: Vec<&str> = photos.iter().map(|p| p.id.as_str()).collect();
    found.sort();
    found
}

fn nothing() -> Attachments {
    Attachments { document: None, photo: None, sticker: None }
}

fn opt(scale: u32) -> Opt {
    Opt { emotion: CliEmotion::Cry, mode: Mode::Weeb, antialias_scale: scale }
}

#[test]
fn the_tallest_size_of_each_photo_is_kept() {
    let photos = vec![
        photo("a-small", "a", 90),
        photo("b-large", "b", 800),
        photo("a-large", "a", 1280),
        photo("a-medium", "a", 320),
        photo("b-small", "b", 100),
        photo("c", "c", 5),
    ];
    let best = best_photos(&photos);
    assert_eq!(ids(&best), vec!["a-large", "b-large", "c"]);
    let a = best.iter().find(|p| p.unique_id == "a").unwrap();
    assert_eq!(a.height, 1280);
}

#[test]
fn of_equally_tall_sizes_the_first_is_kept() {
    let photos = vec![photo("first", "a", 100), photo("second", "a", 100), photo("low", "a", 99)];
    assert_eq!(ids(&best_photos(&photos)), vec!["first"]);
}

#[test]
fn no_photos_have_no_best() {
    assert!(best_photos(&Vec::new()).is_empty());
}

#[test]
fn a_document_that_is_an_image_comes_first() {
    let message = Attachments {
        document: Some(Document { id: String::from("doc"), is_image: true }),
        photo: Some(vec![photo("p", "p", 10)]),
        sticker: Some(Sticker { id: String::from("s"), is_animated: false }),
    };
    assert_eq!(image_from_message(&message).as_deref(), Some("doc"));
}

#[test]
fn a_document_that_is_no_image_is_passed_over() {
    let message = Attachments {
        document: Some(Document { id: String::from("doc"), is_image: false }),
        photo: Some(vec![photo("small", "p", 10), photo("large", "p", 20)]),
        sticker: Some(Sticker { id: String::from("s"), is_animated: false }),
    };
    assert_eq!(image_from_message(&message).as_deref(), Some("large"));
}

#[test]
fn a_still_sticker_is_the_last_resort() {
    let mut message = nothing();
    message.photo = Some(Vec::new());
    message.sticker = Some(Sticker { id: String::from("s"), is_animated: false });
    assert_eq!(image_from_message(&message).as_deref(), Some("s"));
    message.sticker = Some(Sticker { id: String::from("s"), is_animated: true });
    assert_eq!(image_from_message(&message), None);
    assert_eq!(image_from_message(&nothing()), None);
}

#[test]
fn pictures_beyond_the_longest_side_are_too_large() {
    assert_eq!(MAX_SIDE, 4096);
    assert!(!too_large(4096, 4096));
    assert!(too_large(4097, 1));
    assert!(too_large(1, 4097));
    assert!(!too_large(0, 0));
}

#[test]
fn help_and_start_are_explained() {
    assert!(matches!(begin(Commands::Help, &None), Step::Explain));
    assert!(matches!(begin(Commands::Start, &Some(nothing())), Step::Explain));
}

#[test]
fn unreadable_options_are_answered_with_their_fault() {
    let step = begin(Commands::Ciyaify(Err(String::from("no such face"))), &None);
    assert!(matches!(step, Step::Say(words) if words == "no such face"));
}

#[test]
fn a_command_must_answer_a_picture() {
    let wanted = "Please reply to the image you want to ciyaify.";
    let step = begin(Commands::Ciyaify(Ok(opt(8))), &None);
    assert!(matches!(step, Step::Say(words) if words == wanted));
    let step = begin(Commands::Ciyaify(Ok(opt(8))), &Some(nothing()));
    assert!(matches!(step, Step::Say(words) if words == wanted));
    // a missing picture is noticed before too much antialiasing
    let step = begin(Commands::Ciyaify(Ok(opt(9))), &Some(nothing()));
    assert!(matches!(step, Step::Say(words) if words == wanted));
}

#[test]
fn antialiasing_is_granted_up_to_eight() {
    assert_eq!(MAX_ANTIALIAS_SCALE, 8);
    let mut message = nothing();
    message.sticker = Some(Sticker { id: String::from("s"), is_animated: false });
    let message = Some(message);
    let step = begin(Commands::Ciyaify(Ok(opt(9))), &message);
    assert!(matches!(step, Step::Say(words) if words == "antialias_scale must <= 8."));
    let step = begin(Commands::Ciyaify(Ok(opt(8))), &message);
    assert!(matches!(step, Step::Fetch { file_id, opt: with } if file_id == "s" && with == opt(8)));
    let step = begin(Commands::Ciyaify(Ok(opt(0))), &message);
    assert!(matches!(step, Step::Fetch { file_id, opt: with } if file_id == "s" && with == opt(0)));
}

#[test]
fn missing_models_are_told_first() {
    let standard = Opt { emotion: CliEmotion::Auto, mode: Mode::Standard, antialias_scale: 8 };
    assert_eq!(prepare(&standard, false, None).as_deref(), Some("Unable to load model."));
    assert_eq!(prepare(&opt(8), false, Some((10, 10))).as_deref(), Some("Unable to load model."));
}

#[test]
fn files_that_are_no_picture_or_too_large_are_declined() {
    let standard = Opt { emotion: CliEmotion::Auto, mode: Mode::Standard, antialias_scale: 8 };
    assert_eq!(prepare(&opt(8), true, None).as_deref(), Some("Invalid image format."));
    assert_eq!(prepare(&standard, true, None).as_deref(), Some("Invalid image format."));
    assert_eq!(prepare(&opt(8), true, Some((4097, 10))).as_deref(), Some("Invalid image format."));
    assert_eq!(prepare(&opt(8), true, Some((10, 5000))).as_deref(), Some("Invalid image format."));
}

#[test]
fn the_standard_detector_is_declined() {
    let standard = Opt { emotion: CliEmotion::Auto, mode: Mode::Standard, antialias_scale: 8 };
    assert_eq!(
        prepare(&standard, true, Some((4096, 4096))).as_deref(),
        Some("Standard detector not implemented.")
    );
    assert_eq!(prepare(&opt(8), true, Some((4096, 4096))), None);
}

#[test]
fn errors_are_told_in_their_words() {
    assert_eq!(report(&Error::NoneError), "No face or mouth detected.");
    assert_eq!(
        report(&Error::MathError(String::from("invalid control points"))),
        "math error: invalid control points"
    );
    assert_eq!(report(&Error::CVError(String::from("x"))), "cv error: x");
}

#[test]
fn models_beside_the_program_are_preferred() {
    assert_eq!(choose_models((true, true), (false, false)), ModelSource::Local);
    assert_eq!(choose_models((true, true), (true, true)), ModelSource::Local);
}

#[test]
fn missing_models_are_fetched_into_the_data_directory() {
    assert_eq!(
        choose_models((true, false), (true, true)),
        ModelSource::Downloaded { fetch_face: false, fetch_landmark: false }
    );
    assert_eq!(
        choose_models((false, true), (false, true)),
        ModelSource::Downloaded { fetch_face: true, fetch_landmark: false }
    );
    assert_eq!(
        choose_models((false, false), (true, false)),
        ModelSource::Downloaded { fetch_face: false, fetch_landmark: true }
    );
    assert_eq!(
        choose_models((true, false), (false, false)),
        ModelSource::Downloaded { fetch_face: true, fetch_landmark: true }
    );
}
