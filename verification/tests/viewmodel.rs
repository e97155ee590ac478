use image_editor::model::image::Image;
use image_editor::model::image_service::ImageService;
use image_editor::picture::{Picture, PixelLayout};
use image_editor::signal::Polled;
use image_editor::viewmodel::image_frame::{
    ImageFrame, PropertyChangedNotification as FrameNotification,
};
use image_editor::viewmodel::top_panel::{
    PropertyChangedNotification as PanelNotification, TopPanel,
};
use std::sync::Arc;

// Three by one, 8-bit grey: 0, 100, 255.
const GREY_3X1: [u8; 69] = [
    137, 80, 78, 71, 13, 10, 26, 10, 0, 0, 0, 13, 73, 72, 68, 82, 0, 0, 0, 3, 0, 0, 0, 1, 8, 0, 0,
    0, 0, 62, 139, 75, 104, 0, 0, 0, 12, 73, 68, 65, 84, 120, 218, 99, 96, 72, 249, 15, 0, 1, 203,
    1, 100, 111, 243, 1, 174, 0, 0, 0, 0, 73, 69, 78, 68, 174, 66, 96, 130,
];

fn grey(samples: Vec<u8>) -> Picture {
    Picture::from_raw(samples.len() as u32, 1, PixelLayout::Luma, samples).unwrap()
}

fn samples_of(snapshot: &Arc<Option<Picture>>) -> Option<Vec<u8>> {
    match &**snapshot {
        Some(picture) => Some(picture.samples().clone()),
        None => None,
    }
}

#[test]
fn panel_viewmodel_starts_without_pictures() {
    let service = ImageService::new();
    let panel = TopPanel::new(&service);
    assert!(!panel.get_has_current());
    assert!(!panel.get_has_preview());
}

#[test]
fn panel_viewmodel_ignores_what_was_written_before_it_subscribed() {
    let mut service = ImageService::new();
    service.reset(Some(grey(vec![1])));
    let mut panel = TopPanel::new(&service);
    panel.process_messages(&service);
    assert!(!panel.get_has_current());
    assert!(!panel.get_has_preview());
}

#[test]
fn panel_viewmodel_follows_the_cells_and_tells_its_view() {
    let mut service = ImageService::new();
    let mut panel = TopPanel::new(&service);
    let mut view = panel.get_receiver();

    panel.process_messages(&service);
    assert!(view.try_recv().is_err());

    service.reset(Some(grey(vec![1, 2])));
    assert!(!panel.get_has_current());
    panel.process_messages(&service);
    assert!(panel.get_has_current());
    assert!(!panel.get_has_preview());
    assert!(matches!(view.try_recv(), Ok(PanelNotification::HasCurrent)));
    assert!(matches!(view.try_recv(), Ok(PanelNotification::HasPreview)));
    assert!(view.try_recv().is_err());

    service.apply_invert();
    panel.process_messages(&service);
    assert!(panel.get_has_current());
    assert!(panel.get_has_preview());
    assert!(matches!(view.try_recv(), Ok(PanelNotification::HasPreview)));
    assert!(view.try_recv().is_err());

    service.accept_operation();
    panel.process_messages(&service);
    assert!(panel.get_has_current());
    assert!(!panel.get_has_preview());
    assert!(matches!(view.try_recv(), Ok(PanelNotification::HasCurrent)));
    assert!(matches!(view.try_recv(), Ok(PanelNotification::HasPreview)));
    assert!(view.try_recv().is_err());

    panel.process_messages(&service);
    assert!(view.try_recv().is_err());
}

#[test]
fn panel_viewmodel_takes_one_signal_of_each_cell_per_frame() {
    let mut service = ImageService::new();
    let mut panel = TopPanel::new(&service);
    let mut view = panel.get_receiver();
    service.reset(Some(grey(vec![1])));
    service.reset(None);
    panel.process_messages(&service);
    assert!(!panel.get_has_current());
    assert!(matches!(view.try_recv(), Ok(PanelNotification::HasCurrent)));
    assert!(matches!(view.try_recv(), Ok(PanelNotification::HasPreview)));
    assert!(view.try_recv().is_err());
    panel.process_messages(&service);
    assert!(matches!(view.try_recv(), Ok(PanelNotification::HasCurrent)));
    assert!(matches!(view.try_recv(), Ok(PanelNotification::HasPreview)));
    panel.process_messages(&service);
    assert!(view.try_recv().is_err());
}

#[test]
fn panel_viewmodel_cells_polled_takes_over_only_what_signalled() {
    let mut service = ImageService::new();
    let mut panel = TopPanel::new(&service);
    let mut view = panel.get_receiver();
    service.reset(Some(grey(vec![1])));
    service.apply_invert();

    panel.cells_polled(Polled::Empty, Polled::Closed, &service);
    assert!(!panel.get_has_current());
    assert!(!panel.get_has_preview());
    assert!(view.try_recv().is_err());

    panel.cells_polled(Polled::Empty, Polled::Got(()), &service);
    assert!(!panel.get_has_current());
    assert!(panel.get_has_preview());
    assert!(matches!(view.try_recv(), Ok(PanelNotification::HasPreview)));
    assert!(view.try_recv().is_err());

    panel.cells_polled(Polled::Lagged, Polled::Empty, &service);
    assert!(panel.get_has_current());
    assert!(panel.get_has_preview());
    assert!(matches!(view.try_recv(), Ok(PanelNotification::HasCurrent)));
    assert!(view.try_recv().is_err());

    service.reset(None);
    panel.cells_polled(Polled::Got(()), Polled::Lagged, &service);
    assert!(!panel.get_has_current());
    assert!(!panel.get_has_preview());
}

#[test]
fn panel_viewmodel_hands_commands_on() {
    let mut service = ImageService::new();
    let mut panel = TopPanel::new(&service);

    panel.open_file(&mut service, Some(&GREY_3X1));
    service.update();
    assert_eq!(samples_of(&service.get_current_image().get()), Some(vec![0, 100, 255]));

    panel.apply_invert(&mut service);
    assert_eq!(samples_of(&service.get_preview_image().get()), Some(vec![255, 155, 0]));
    panel.discard_operation(&mut service);
    assert_eq!(samples_of(&service.get_preview_image().get()), None);

    panel.apply_grayscale(&mut service);
    assert_eq!(samples_of(&service.get_preview_image().get()), Some(vec![0, 100, 255]));
    panel.apply_invert(&mut service);
    panel.accept_operation(&mut service);
    assert_eq!(samples_of(&service.get_current_image().get()), Some(vec![255, 155, 0]));
    assert_eq!(samples_of(&service.get_preview_image().get()), None);

    panel.reset_images(&mut service);
    assert_eq!(samples_of(&service.get_current_image().get()), None);
    assert_eq!(samples_of(&service.get_preview_image().get()), None);

    panel.open_file(&mut service, None);
    panel.open_file(&mut service, Some(b"no image"));
    panel.open_decoded(&mut service, None);
    service.update();
    assert_eq!(samples_of(&service.get_current_image().get()), None);
    assert!(!panel.get_has_current());
    panel.open_decoded(&mut service, Some(grey(vec![5])));
    assert_eq!(samples_of(&service.get_current_image().get()), None);
    service.update();
    assert_eq!(samples_of(&service.get_current_image().get()), Some(vec![5]));
}

#[test]
fn frame_viewmodel_starts_open_with_its_title() {
    let model = Image::new();
    let frame = ImageFrame::new("Current", true, &model);
    assert_eq!(frame.get_title(), "Current");
    assert!(frame.get_accept_input());
    assert!(frame.get_open());
    assert!(frame.get_image().is_none());

    let other = ImageFrame::new("Preview", false, &model);
    assert_eq!(other.get_title(), "Preview");
    assert!(!other.get_accept_input());
    assert!(other.get_open());
}

#[test]
fn frame_viewmodel_tells_its_view_when_the_cell_changed() {
    let mut model = Image::new();
    let mut frame = ImageFrame::new("Current", true, &model);
    let mut view = frame.get_receiver();

    frame.process_messages(&model);
    assert!(view.try_recv().is_err());

    model.set(Some(grey(vec![1, 2])));
    assert!(view.try_recv().is_err());
    frame.process_messages(&model);
    assert!(matches!(view.try_recv(), Ok(FrameNotification::Image)));
    assert!(view.try_recv().is_err());
    assert_eq!(samples_of(&frame.get_image()), Some(vec![1, 2]));

    frame.process_messages(&model);
    assert!(view.try_recv().is_err());
    assert_eq!(frame.get_title(), "Current");
    assert!(frame.get_open());
}

#[test]
fn frame_viewmodel_get_image_gives_the_picture_it_holds() {
    let mut model = Image::new();
    let mut frame = ImageFrame::new("Current", true, &model);
    model.set(Some(grey(vec![4])));
    // The frame has not looked yet.
    assert_eq!(samples_of(&frame.get_image()), None);
    frame.process_messages(&model);
    assert_eq!(samples_of(&frame.get_image()), Some(vec![4]));
    // What is set by hand stays, whatever the cell holds.
    frame.set_image(Arc::new(Some(grey(vec![7, 8]))));
    assert_eq!(samples_of(&frame.get_image()), Some(vec![7, 8]));
    assert_eq!(samples_of(&model.get()), Some(vec![4]));
    model.set(None);
    assert_eq!(samples_of(&frame.get_image()), Some(vec![7, 8]));
    frame.process_messages(&model);
    assert_eq!(samples_of(&frame.get_image()), None);
}

#[test]
fn frame_viewmodel_looks_again_when_signals_were_lost() {
    let mut model = Image::new();
    let mut frame = ImageFrame::new("Current", true, &model);
    let mut view = frame.get_receiver();
    for _ in 0..40 {
        model.set(None);
    }
    model.set(Some(grey(vec![3])));
    frame.process_messages(&model);
    assert_eq!(samples_of(&frame.get_image()), Some(vec![3]));
    assert!(matches!(view.try_recv(), Ok(FrameNotification::Image)));
    assert!(view.try_recv().is_err());
}

#[test]
fn panel_viewmodel_looks_again_when_signals_were_lost() {
    let mut service = ImageService::new();
    let mut panel = TopPanel::new(&service);
    for _ in 0..40 {
        service.reset(None);
    }
    service.reset(Some(grey(vec![1])));
    service.apply_invert();
    panel.process_messages(&service);
    assert!(panel.get_has_current());
    assert!(panel.get_has_preview());
}

#[test]
fn panel_viewmodel_poll_hands_out_what_it_told() {
    let mut service = ImageService::new();
    let mut panel = TopPanel::new(&service);
    let mut view = panel.get_receiver();
    assert!(matches!(panel.poll(&mut view), Polled::Empty));
    service.reset(Some(grey(vec![1])));
    panel.process_messages(&service);
    assert!(matches!(panel.poll(&mut view), Polled::Got(PanelNotification::HasCurrent)));
    assert!(matches!(panel.poll(&mut view), Polled::Got(PanelNotification::HasPreview)));
    assert!(matches!(panel.poll(&mut view), Polled::Empty));
    for _ in 0..20 {
        service.reset(None);
        panel.process_messages(&service);
    }
    assert!(matches!(panel.poll(&mut view), Polled::Lagged));
    let mut kept = 0;
    while let Polled::Got(_) = panel.poll(&mut view) {
        kept += 1;
    }
    assert_eq!(kept, 32);
}

#[test]
fn frame_viewmodel_poll_hands_out_what_it_told() {
    let model = Image::new();
    let mut frame = ImageFrame::new("Current", true, &model);
    let mut view = frame.get_receiver();
    assert!(matches!(frame.poll(&mut view), Polled::Empty));
    frame.set_open(false);
    frame.set_title("Other".to_string());
    let mut late = frame.get_receiver();
    assert!(matches!(frame.poll(&mut view), Polled::Got(FrameNotification::Open)));
    assert!(matches!(frame.poll(&mut view), Polled::Got(FrameNotification::Title)));
    assert!(matches!(frame.poll(&mut view), Polled::Empty));
    assert!(matches!(frame.poll(&mut late), Polled::Empty));
}

#[test]
fn frame_viewmodel_model_polled_without_signal_tells_nothing() {
    let mut model = Image::new();
    let mut frame = ImageFrame::new("Current", true, &model);
    let mut view = frame.get_receiver();
    model.set(Some(grey(vec![4])));
    frame.model_polled(Polled::Empty, &model);
    frame.model_polled(Polled::Closed, &model);
    assert!(view.try_recv().is_err());
    assert_eq!(samples_of(&frame.get_image()), None);
    frame.model_polled(Polled::Got(()), &model);
    assert!(matches!(view.try_recv(), Ok(FrameNotification::Image)));
    assert_eq!(samples_of(&frame.get_image()), Some(vec![4]));
    model.set(None);
    frame.model_polled(Polled::Lagged, &model);
    assert!(matches!(view.try_recv(), Ok(FrameNotification::Image)));
    assert_eq!(samples_of(&frame.get_image()), None);
}

#[test]
fn frame_viewmodel_setters_name_the_property() {
    let model = Image::new();
    let mut frame = ImageFrame::new("Current", true, &model);
    let mut view = frame.get_receiver();

    frame.set_accept_input(false);
    assert!(!frame.get_accept_input());
    assert!(matches!(view.try_recv(), Ok(FrameNotification::AcceptInput)));

    frame.set_open(false);
    assert!(!frame.get_open());
    assert!(matches!(view.try_recv(), Ok(FrameNotification::Open)));

    frame.set_title("Other".to_string());
    assert_eq!(frame.get_title(), "Other");
    assert!(matches!(view.try_recv(), Ok(FrameNotification::Title)));

    frame.set_image(Arc::new(Some(grey(vec![1]))));
    assert!(matches!(view.try_recv(), Ok(FrameNotification::Image)));
    assert!(view.try_recv().is_err());
    assert!(!frame.get_accept_input());
    assert!(!frame.get_open());
    assert_eq!(frame.get_title(), "Other");
}

#[test]
fn frame_viewmodel_open_file_asks_the_service() {
    let mut service = ImageService::new();
    let frame = ImageFrame::new("Current", true, service.get_current_image());
    frame.open_file(&mut service, Some(&GREY_3X1));
    assert!(service.get_current_image().get().is_none());
    service.update();
    assert_eq!(samples_of(&service.get_current_image().get()), Some(vec![0, 100, 255]));
    frame.open_file(&mut service, None);
    service.update();
    assert_eq!(samples_of(&service.get_current_image().get()), Some(vec![0, 100, 255]));
}
