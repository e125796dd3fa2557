use roder_tui::paste::ImageAttachment;
use roder_tui::paste_route::{attach_pasted_images, attached_images_event, paste_route, PasteRoute};
use roder_tui::popup::ProviderPopupScreen;

fn image(path: &str) -> ImageAttachment {
    ImageAttachment { path: path.to_string() }
}

#[test]
fn paste_goes_to_filter_images_or_nowhere() {
    assert_eq!(paste_route(true, false, true, ProviderPopupScreen::Main, "x"), PasteRoute::Ignore);
    assert_eq!(paste_route(false, true, false, ProviderPopupScreen::Main, "x"), PasteRoute::Ignore);
    assert_eq!(
        paste_route(false, false, true, ProviderPopupScreen::Models, "gpt\r\n5"),
        PasteRoute::PopupFilter { text: "gpt  5".to_string(), clamp_selection: true }
    );
    assert_eq!(
        paste_route(false, false, true, ProviderPopupScreen::ApiKey, "sk-1\n"),
        PasteRoute::PopupFilter { text: "sk-1 ".to_string(), clamp_selection: false }
    );
    assert_eq!(
        paste_route(false, false, false, ProviderPopupScreen::Main, "hello"),
        PasteRoute::ImagesOrComposer
    );
}

#[test]
fn pasted_images_are_attached_once() {
    let mut attachments = vec![image("/a.png")];
    let added = attach_pasted_images(&mut attachments, vec![image("/b.png"), image("/a.png"), image("/b.png")]);
    assert_eq!(added, 1);
    assert_eq!(attachments, vec![image("/a.png"), image("/b.png")]);
    assert_eq!(attached_images_event(added), "attached 1 image");
    assert_eq!(attached_images_event(3), "attached 3 images");
    let again = attach_pasted_images(&mut attachments, vec![image("/b.png"), image("/a.png")]);
    assert_eq!(again, 0);
    assert_eq!(attachments.len(), 2);
}
