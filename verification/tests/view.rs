use image_editor::app::MyApp;
use image_editor::codec::decode;
use image_editor::model::image::Image;
use image_editor::model::image_service::ImageService;
use image_editor::model::session::CellId;
use image_editor::picture::{Picture, PixelLayout};
use image_editor::view::central_panel::CentralPanel;
use image_editor::view::image_frame::{FrameContent, ImageFrame, Texture};
use image_editor::view::top_panel::TopPanel;
use image_editor::view::GuiAction;
use image_editor::viewmodel;

// Two by two, 8-bit colour: red, green, blue, white.
const RGB_2X2: [u8; 75] = [
    137, 80, 78, 71, 13, 10, 26, 10, 0, 0, 0, 13, 73, 72, 68, 82, 0, 0, 0, 2, 0, 0, 0, 2, 8, 2, 0,
    0, 0, 253, 212, 154, 115, 0, 0, 0, 18, 73, 68, 65, 84, 120, 218, 99, 248, 207, 192, 192, 0,
    194, 12, 255, 129, 0, 0, 31, 238, 5, 251, 241, 171, 186, 119, 0, 0, 0, 0, 73, 69, 78, 68, 174,
    66, 96, 130,
];

const ALL_ACTIONS: [GuiAction; 6] = [
    GuiAction::OpenFileDialog,
    GuiAction::ApplyGrayscale,
    GuiAction::ApplyInvert,
    GuiAction::AcceptOperation,
    GuiAction::DiscardOperation,
    GuiAction::ResetAll,
];

fn grey(samples: Vec<u8>) -> Picture {
    Picture::from_raw(samples.len() as u32, 1, PixelLayout::Luma, samples).unwrap()
}

fn held(service: &ImageService, id: CellId) -> Option<Vec<u8>> {
    match &*service.cell(id).get() {
        Some(picture) => Some(picture.samples().clone()),
        None => None,
    }
}

fn offered(panel: &TopPanel) -> Vec<GuiAction> {
    ALL_ACTIONS.iter().copied().filter(|action| panel.offers(*action)).collect()
}

fn menu(service: &ImageService) -> TopPanel {
    TopPanel::new(viewmodel::top_panel::TopPanel::new(service))
}

fn window(title: &str, accept_input: bool, model: &Image) -> ImageFrame {
    ImageFrame::new(viewmodel::image_frame::ImageFrame::new(title, accept_input, model))
}

#[test]
fn texture_holds_size_and_colours() {
    let picture = Picture::from_raw(2, 1, PixelLayout::Luma, vec![7, 200]).unwrap();
    let texture = Texture::from_picture(&picture);
    assert_eq!(texture.size(), [2, 1]);
    assert_eq!(texture.pixels(), &vec![7u8, 7, 7, 255, 200, 200, 200, 255]);
    let colour = Picture::from_raw(1, 2, PixelLayout::Rgba, vec![1, 2, 3, 4, 5, 6, 7, 8]).unwrap();
    let texture = Texture::from_picture(&colour);
    assert_eq!(texture.size(), [1, 2]);
    assert_eq!(texture.pixels(), &vec![1u8, 2, 3, 4, 5, 6, 7, 8]);
}

#[test]
fn menu_starts_offering_only_to_open() {
    let service = ImageService::new();
    let panel = menu(&service);
    assert_eq!(offered(&panel), vec![GuiAction::OpenFileDialog]);
    assert!(!panel.awaits_file());
}

#[test]
fn menu_offers_what_the_pictures_allow() {
    let mut service = ImageService::new();
    let mut panel = menu(&service);

    service.reset(Some(grey(vec![1, 2])));
    assert_eq!(offered(&panel), vec![GuiAction::OpenFileDialog]);
    panel.show(&mut service, None);
    assert_eq!(
        offered(&panel),
        vec![
            GuiAction::OpenFileDialog,
            GuiAction::ApplyGrayscale,
            GuiAction::ApplyInvert,
            GuiAction::ResetAll
        ]
    );

    service.apply_invert();
    panel.show(&mut service, None);
    assert_eq!(offered(&panel), ALL_ACTIONS.to_vec());

    service.discard_operation();
    panel.show(&mut service, None);
    assert_eq!(
        offered(&panel),
        vec![
            GuiAction::OpenFileDialog,
            GuiAction::ApplyGrayscale,
            GuiAction::ApplyInvert,
            GuiAction::ResetAll
        ]
    );

    service.reset(None);
    panel.show(&mut service, None);
    assert_eq!(offered(&panel), vec![GuiAction::OpenFileDialog]);
}

#[test]
fn menu_click_on_what_is_not_offered_changes_nothing() {
    let mut service = ImageService::new();
    let mut panel = menu(&service);
    service.reset(Some(grey(vec![1, 2])));
    // The panel has not looked yet: it offers no transform.
    assert!(!panel.ui(GuiAction::ApplyInvert, &mut service));
    assert_eq!(held(&service, CellId::Preview), None);
    assert!(!panel.ui(GuiAction::ResetAll, &mut service));
    assert_eq!(held(&service, CellId::Current), Some(vec![1, 2]));
    assert!(!panel.ui(GuiAction::AcceptOperation, &mut service));
    assert!(!panel.ui(GuiAction::DiscardOperation, &mut service));
    assert!(!panel.ui(GuiAction::ApplyGrayscale, &mut service));
    assert_eq!(held(&service, CellId::Current), Some(vec![1, 2]));
    assert_eq!(held(&service, CellId::Preview), None);
}

#[test]
fn menu_click_carries_the_command_out() {
    let mut service = ImageService::new();
    let mut panel = menu(&service);
    service.reset(Some(grey(vec![10, 20])));
    panel.show(&mut service, None);

    assert!(!panel.ui(GuiAction::ApplyInvert, &mut service));
    assert_eq!(held(&service, CellId::Preview), Some(vec![245, 235]));
    panel.show(&mut service, None);
    assert!(!panel.ui(GuiAction::DiscardOperation, &mut service));
    assert_eq!(held(&service, CellId::Preview), None);
    assert_eq!(held(&service, CellId::Current), Some(vec![10, 20]));

    assert!(!panel.ui(GuiAction::ApplyGrayscale, &mut service));
    assert_eq!(held(&service, CellId::Preview), Some(vec![10, 20]));
    assert!(!panel.ui(GuiAction::ApplyInvert, &mut service));
    assert!(!panel.ui(GuiAction::AcceptOperation, &mut service));
    assert_eq!(held(&service, CellId::Current), Some(vec![245, 235]));
    assert_eq!(held(&service, CellId::Preview), None);

    assert!(!panel.ui(GuiAction::ResetAll, &mut service));
    assert_eq!(held(&service, CellId::Current), None);
    assert_eq!(held(&service, CellId::Preview), None);
}

#[test]
fn menu_waits_for_the_file_dialog_it_opened() {
    let mut service = ImageService::new();
    let mut panel = menu(&service);

    // An answer that nobody waits for is dropped.
    panel.show(&mut service, Some(decode(&RGB_2X2)));
    service.update();
    assert_eq!(held(&service, CellId::Current), None);

    assert!(panel.ui(GuiAction::OpenFileDialog, &mut service));
    assert!(panel.awaits_file());
    panel.show(&mut service, None);
    assert!(panel.awaits_file());

    panel.show(&mut service, Some(decode(&RGB_2X2)));
    assert!(!panel.awaits_file());
    assert_eq!(held(&service, CellId::Current), None);
    service.update();
    assert_eq!(
        held(&service, CellId::Current),
        Some(vec![255, 0, 0, 255, 0, 255, 0, 255, 0, 0, 255, 255, 255, 255, 255, 255])
    );
}

#[test]
fn menu_stops_waiting_when_the_dialog_is_dismissed() {
    let mut service = ImageService::new();
    let mut panel = menu(&service);
    service.reset(Some(grey(vec![1])));
    assert!(panel.ui(GuiAction::OpenFileDialog, &mut service));
    panel.show(&mut service, Some(None));
    assert!(!panel.awaits_file());
    service.update();
    assert_eq!(held(&service, CellId::Current), Some(vec![1]));
}

#[test]
fn menu_dialog_polled_loads_only_while_waiting() {
    let mut service = ImageService::new();
    let mut panel = menu(&service);
    panel.dialog_polled(&mut service, Some(decode(&RGB_2X2)));
    service.update();
    assert_eq!(held(&service, CellId::Current), None);
    panel.ui(GuiAction::OpenFileDialog, &mut service);
    panel.dialog_polled(&mut service, None);
    assert!(panel.awaits_file());
    panel.dialog_polled(&mut service, Some(decode(b"no image")));
    assert!(!panel.awaits_file());
    service.update();
    assert_eq!(held(&service, CellId::Current), None);
}

#[test]
fn window_starts_with_what_its_viewmodel_holds() {
    let mut model = Image::new();
    let empty = window("Current", true, &model);
    assert_eq!(empty.content(), FrameContent::NothingToShow { offer_open: true });
    assert!(empty.texture().is_none());

    // A cell that holds a picture already: the view-model has not looked
    // yet, so the window starts without it.
    model.set(Some(grey(vec![3, 4])));
    let late = window("Preview", false, &model);
    assert_eq!(late.content(), FrameContent::NothingToShow { offer_open: false });

    let mut viewmodel = viewmodel::image_frame::ImageFrame::new("Preview", false, &model);
    viewmodel.set_image(std::sync::Arc::new(Some(grey(vec![3, 4]))));
    viewmodel.set_title("Other".to_string());
    let full = ImageFrame::new(viewmodel);
    assert_eq!(full.content(), FrameContent::Picture);
    let texture = full.texture().unwrap();
    assert_eq!(texture.size(), [2, 1]);
    assert_eq!(texture.pixels(), &vec![3u8, 3, 3, 255, 4, 4, 4, 255]);
}

#[test]
fn window_offers_to_open_only_while_empty_and_accepting() {
    let mut model = Image::new();
    let mut accepting = window("Current", true, &model);
    assert_eq!(accepting.ui(true), Some(GuiAction::OpenFileDialog));
    assert_eq!(accepting.ui(false), None);

    let refusing = window("Preview", false, &model);
    assert_eq!(refusing.content(), FrameContent::NothingToShow { offer_open: false });
    assert_eq!(refusing.ui(true), None);

    model.set(Some(grey(vec![1])));
    accepting.show(&model);
    assert_eq!(accepting.ui(true), None);
}

#[test]
fn window_takes_a_new_picture_when_told() {
    let mut model = Image::new();
    let mut frame = window("Current", true, &model);

    let drawn = frame.show(&model);
    assert_eq!(drawn.title, "Current");
    assert!(drawn.open);
    assert_eq!(frame.content(), FrameContent::NothingToShow { offer_open: true });

    model.set(Some(grey(vec![9])));
    assert_eq!(frame.content(), FrameContent::NothingToShow { offer_open: true });
    frame.show(&model);
    assert_eq!(frame.content(), FrameContent::Picture);
    assert_eq!(frame.texture().unwrap().pixels(), &vec![9u8, 9, 9, 255]);

    model.set(None);
    frame.show(&model);
    assert_eq!(frame.content(), FrameContent::NothingToShow { offer_open: true });
    assert!(frame.texture().is_none());
}

#[test]
fn window_drains_its_notifications_each_frame() {
    let mut model = Image::new();
    let mut frame = window("Current", true, &model);

    // The drawing reports each frame whether the window is still open,
    // and the view-model names that property each time.
    for _ in 0..5 {
        frame.show(&model);
        frame.drawn(true);
    }
    model.set(Some(grey(vec![9])));
    frame.show(&model);
    assert_eq!(frame.content(), FrameContent::Picture);
    frame.drawn(true);
    model.set(None);
    frame.show(&model);
    assert_eq!(frame.content(), FrameContent::NothingToShow { offer_open: true });
}

#[test]
fn window_notified_takes_over_the_named_property() {
    let mut model = Image::new();
    let mut frame = window("Current", true, &model);
    model.set(Some(grey(vec![9])));
    frame.show(&model);
    assert_eq!(frame.texture().unwrap().pixels(), &vec![9u8, 9, 9, 255]);
    frame.set_image(&None);
    frame.notified(viewmodel::image_frame::PropertyChangedNotification::Title);
    frame.notified(viewmodel::image_frame::PropertyChangedNotification::Open);
    frame.notified(viewmodel::image_frame::PropertyChangedNotification::AcceptInput);
    assert_eq!(frame.content(), FrameContent::NothingToShow { offer_open: true });
    // The picture comes from the view-model, which has not looked at the
    // cell again.
    model.set(Some(grey(vec![1])));
    frame.notified(viewmodel::image_frame::PropertyChangedNotification::Image);
    assert_eq!(frame.texture().unwrap().pixels(), &vec![9u8, 9, 9, 255]);
    frame.set_image(&None);
    frame.lost();
    assert_eq!(frame.texture().unwrap().pixels(), &vec![9u8, 9, 9, 255]);
}

#[test]
fn window_says_when_the_picture_changed() {
    let mut model = Image::new();
    let mut frame = window("Current", true, &model);
    assert!(!frame.show(&model).image_changed);
    frame.drawn(true);
    model.set(Some(grey(vec![9])));
    assert!(frame.show(&model).image_changed);
    frame.drawn(true);
    assert!(!frame.show(&model).image_changed);
}

#[test]
fn window_takes_every_property_over_when_notifications_were_lost() {
    let mut model = Image::new();
    let mut frame = window("Current", true, &model);
    model.set(Some(grey(vec![9])));
    frame.show(&model);
    // Forty frames are drawn and told of, and none is shown.
    for _ in 0..40 {
        frame.drawn(false);
    }
    frame.set_image(&None);
    let window = frame.show(&model);
    assert!(window.image_changed);
    assert!(!window.open);
    assert_eq!(frame.content(), FrameContent::Picture);
}

#[test]
fn window_closes_in_the_frame_after_the_drawing_said_so() {
    let model = Image::new();
    let mut frame = window("Current", true, &model);
    let first = frame.show(&model);
    assert!(first.open);
    frame.drawn(false);
    let second = frame.show(&model);
    assert!(!second.open);
    assert_eq!(second.title, "Current");
    frame.drawn(true);
    assert!(frame.show(&model).open);
}

#[test]
fn window_set_image_replaces_the_texture() {
    let model = Image::new();
    let mut frame = window("Current", true, &model);
    frame.set_image(&Some(grey(vec![1, 2, 3])));
    assert_eq!(frame.texture().unwrap().size(), [3, 1]);
    frame.set_image(&None);
    assert!(frame.texture().is_none());
}

#[test]
fn central_panel_shows_each_window_on_its_cell() {
    let mut service = ImageService::new();
    let children = vec![
        (CellId::Current, window("Current", true, service.get_current_image())),
        (CellId::Preview, window("Preview", false, service.get_preview_image())),
    ];
    let mut panel = CentralPanel::new(children);
    assert_eq!(panel.len(), 2);

    let windows = panel.show(&service);
    assert_eq!(windows.len(), 2);
    assert_eq!(windows[0].title, "Current");
    assert_eq!(windows[1].title, "Preview");
    assert!(windows[0].open && windows[1].open);
    assert_eq!(panel.child(0).content(), FrameContent::NothingToShow { offer_open: true });
    assert_eq!(panel.child(1).content(), FrameContent::NothingToShow { offer_open: false });

    service.reset(Some(grey(vec![10])));
    panel.show(&service);
    assert_eq!(panel.child(0).content(), FrameContent::Picture);
    assert_eq!(panel.child(1).content(), FrameContent::NothingToShow { offer_open: false });

    service.apply_invert();
    panel.show(&service);
    assert_eq!(panel.child(0).texture().unwrap().pixels(), &vec![10u8, 10, 10, 255]);
    assert_eq!(panel.child(1).content(), FrameContent::Picture);
    assert_eq!(panel.child(1).texture().unwrap().pixels(), &vec![245u8, 245, 245, 255]);

    panel.drawn(1, false);
    let windows = panel.show(&service);
    assert!(windows[0].open);
    assert!(!windows[1].open);
}

#[test]
fn central_panel_without_windows() {
    let service = ImageService::new();
    let mut panel = CentralPanel::new(Vec::new());
    assert_eq!(panel.len(), 0);
    assert!(panel.show(&service).is_empty());
}

#[test]
fn app_starts_empty_with_two_windows() {
    let mut app = MyApp::default();
    assert!(app.image_service().get_current_image().get().is_none());
    assert!(app.image_service().get_preview_image().get().is_none());
    assert_eq!(offered(app.top_panel()), vec![GuiAction::OpenFileDialog]);
    assert!(!app.top_panel().awaits_file());
    assert_eq!(app.central_panel().len(), 2);
    assert_eq!(app.central_panel().child(0).ui(true), Some(GuiAction::OpenFileDialog));
    assert_eq!(app.central_panel().child(1).ui(true), None);
    let windows = app.update(None);
    assert_eq!(windows.len(), 2);
    assert_eq!(windows[0].title, "Current");
    assert_eq!(windows[1].title, "Preview");
    assert!(windows[0].open && windows[1].open);
}

#[test]
fn app_edit_from_open_to_reset() {
    let mut app = MyApp::default();
    let frame = |app: &mut MyApp, answer: Option<Option<Picture>>| {
        let windows = app.update(answer);
        for (index, window) in windows.iter().enumerate() {
            app.drawn(index, window.open);
        }
    };

    frame(&mut app, None);
    assert!(!app.click(GuiAction::ApplyGrayscale));
    assert!(app.click(GuiAction::OpenFileDialog));
    assert!(app.top_panel().awaits_file());
    frame(&mut app, None);
    assert!(app.top_panel().awaits_file());

    // The dialog answers; the load is applied by the frame that follows.
    frame(&mut app, Some(decode(&RGB_2X2)));
    assert!(!app.top_panel().awaits_file());
    assert_eq!(held(app.image_service(), CellId::Current), None);
    frame(&mut app, None);
    assert_eq!(
        held(app.image_service(), CellId::Current),
        Some(vec![255, 0, 0, 255, 0, 255, 0, 255, 0, 0, 255, 255, 255, 255, 255, 255])
    );
    assert_eq!(held(app.image_service(), CellId::Preview), None);
    assert!(app.top_panel().offers(GuiAction::ApplyGrayscale));
    assert!(!app.top_panel().offers(GuiAction::AcceptOperation));
    assert_eq!(app.central_panel().child(0).content(), FrameContent::Picture);
    assert_eq!(
        app.central_panel().child(1).content(),
        FrameContent::NothingToShow { offer_open: false }
    );

    assert!(!app.click(GuiAction::ApplyGrayscale));
    assert_eq!(held(app.image_service(), CellId::Preview), Some(vec![77, 150, 28, 255]));
    // The menu has not looked yet.
    assert!(!app.click(GuiAction::AcceptOperation));
    assert_eq!(held(app.image_service(), CellId::Preview), Some(vec![77, 150, 28, 255]));
    frame(&mut app, None);
    assert!(app.top_panel().offers(GuiAction::AcceptOperation));
    assert_eq!(app.central_panel().child(1).content(), FrameContent::Picture);
    assert_eq!(
        app.central_panel().child(1).texture().unwrap().pixels(),
        &vec![77u8, 77, 77, 255, 150, 150, 150, 255, 28, 28, 28, 255, 255, 255, 255, 255]
    );

    assert!(!app.click(GuiAction::AcceptOperation));
    assert_eq!(held(app.image_service(), CellId::Current), Some(vec![77, 150, 28, 255]));
    assert_eq!(held(app.image_service(), CellId::Preview), None);
    frame(&mut app, None);
    assert_eq!(
        app.central_panel().child(0).texture().unwrap().pixels(),
        &vec![77u8, 77, 77, 255, 150, 150, 150, 255, 28, 28, 28, 255, 255, 255, 255, 255]
    );
    assert_eq!(
        app.central_panel().child(1).content(),
        FrameContent::NothingToShow { offer_open: false }
    );

    assert!(!app.click(GuiAction::ResetAll));
    assert_eq!(held(app.image_service(), CellId::Current), None);
    assert_eq!(held(app.image_service(), CellId::Preview), None);
    frame(&mut app, None);
    assert_eq!(offered(app.top_panel()), vec![GuiAction::OpenFileDialog]);
    assert_eq!(
        app.central_panel().child(0).content(),
        FrameContent::NothingToShow { offer_open: true }
    );
}

#[test]
fn menu_catches_up_after_its_viewmodel_lost_signals() {
    let mut service = ImageService::new();
    let mut panel = menu(&service);
    for _ in 0..40 {
        service.reset(None);
    }
    service.reset(Some(grey(vec![1])));
    service.apply_invert();
    // The view-model has fallen behind the cells by more than the channel
    // keeps: its first poll tells of the loss, and it looks again.
    panel.show(&mut service, None);
    assert_eq!(offered(&panel), ALL_ACTIONS.to_vec());
}
