use mandelbrot_viewer::render_surface::{AllocationError, Attachment, RenderSurface};
use mandelbrot_viewer::ScreenDim;

fn attachment(handle: u32, width: u32, height: u32) -> Option<Attachment<u32>> {
    Some(Attachment { handle, width, height })
}

fn surface(width: u32, height: u32, color: u32, depth: u32) -> RenderSurface<u32, u32> {
    RenderSurface::new(width, height, attachment(color, width, height), attachment(depth, width, height))
        .unwrap()
}

#[test]
fn surface_of_100_by_100_resized_to_200_by_150() {
    let mut surface = surface(100, 100, 1, 2);
    assert!(surface.width() == 100 && surface.height() == 100);
    let before = *surface.frame_buffer().color;
    assert_eq!(before, 1);

    let resized = surface.resize(200, 150, attachment(3, 200, 150), attachment(4, 200, 150));
    assert_eq!(resized, Ok(()));
    assert!(surface.width() == 200 && surface.height() == 150);
    let target = surface.frame_buffer();
    assert_ne!(*target.color, before);
    assert_eq!(*target.color, 3);
    assert_eq!(*target.depth, 4);
}

#[test]
fn create_with_zero_width_fails_and_a_valid_create_follows() {
    let failed = RenderSurface::new(0, 100, attachment(1, 0, 100), attachment(2, 0, 100));
    assert_eq!(failed.unwrap_err(), AllocationError);

    let created = RenderSurface::new(64, 48, attachment(3, 64, 48), attachment(4, 64, 48)).unwrap();
    assert_eq!(created.size(), (64, 48));
    assert_eq!(*created.texture(), 3);
    assert_eq!(*created.depth(), 4);
}

#[test]
fn create_with_zero_height_fails() {
    let failed = RenderSurface::new(100, 0, attachment(1, 100, 0), attachment(2, 100, 0));
    assert_eq!(failed.unwrap_err(), AllocationError);
}

#[test]
fn create_fails_when_the_device_delivers_no_color() {
    let failed = RenderSurface::<u32, u32>::new(100, 100, None, attachment(2, 100, 100));
    assert_eq!(failed.unwrap_err(), AllocationError);
}

#[test]
fn create_fails_when_the_device_delivers_no_depth() {
    let failed = RenderSurface::<u32, u32>::new(100, 100, attachment(1, 100, 100), None);
    assert_eq!(failed.unwrap_err(), AllocationError);
}

#[test]
fn create_fails_when_an_attachment_has_another_size() {
    let narrow = RenderSurface::new(100, 100, attachment(1, 99, 100), attachment(2, 100, 100));
    assert_eq!(narrow.unwrap_err(), AllocationError);
    let flat = RenderSurface::new(100, 100, attachment(1, 100, 100), attachment(2, 100, 50));
    assert_eq!(flat.unwrap_err(), AllocationError);
    let swapped = RenderSurface::new(100, 50, attachment(1, 50, 100), attachment(2, 50, 100));
    assert_eq!(swapped.unwrap_err(), AllocationError);
}

#[test]
fn create_keeps_the_handles_it_was_given() {
    let created = RenderSurface::new(
        1,
        1,
        Some(Attachment { handle: "color", width: 1, height: 1 }),
        Some(Attachment { handle: 7u8, width: 1, height: 1 }),
    )
    .unwrap();
    assert_eq!(*created.texture(), "color");
    assert_eq!(*created.depth(), 7);
    assert_eq!(created.width(), 1);
    assert_eq!(created.height(), 1);
}

#[test]
fn failed_resize_keeps_the_previous_attachments() {
    let mut surface = surface(100, 100, 1, 2);

    assert_eq!(surface.resize(200, 150, None, attachment(4, 200, 150)), Err(AllocationError));
    assert_eq!(surface.resize(200, 150, attachment(3, 200, 150), None), Err(AllocationError));
    assert_eq!(surface.resize(0, 150, attachment(3, 0, 150), attachment(4, 0, 150)), Err(AllocationError));
    assert_eq!(surface.resize(200, 0, attachment(3, 200, 0), attachment(4, 200, 0)), Err(AllocationError));
    assert_eq!(
        surface.resize(200, 150, attachment(3, 200, 150), attachment(4, 200, 100)),
        Err(AllocationError)
    );
    assert_eq!(
        surface.resize(200, 150, attachment(3, 100, 100), attachment(4, 100, 100)),
        Err(AllocationError)
    );

    assert_eq!(surface.size(), (100, 100));
    let target = surface.frame_buffer();
    assert_eq!(*target.color, 1);
    assert_eq!(*target.depth, 2);
    assert_eq!((target.width, target.height), (100, 100));
}

#[test]
fn color_and_depth_agree_after_every_resize() {
    let mut surface = surface(100, 100, 1, 2);
    let sizes = [(200, 150), (1, 1), (4096, 2160), (7, 4_000_000_000), (4_294_967_295, 1)];
    let mut handle = 10;
    for (width, height) in sizes {
        let resized =
            surface.resize(width, height, attachment(handle, width, height), attachment(handle + 1, width, height));
        assert_eq!(resized, Ok(()));
        assert_eq!(surface.size(), (width, height));
        assert_eq!(surface.width(), width);
        assert_eq!(surface.height(), height);
        let target = surface.frame_buffer();
        assert_eq!((target.width, target.height), (width, height));
        assert_eq!(*target.color, handle);
        assert_eq!(*target.depth, handle + 1);
        handle += 2;
    }
}

#[test]
fn resize_to_the_current_size_keeps_the_size() {
    let mut surface = surface(320, 240, 1, 2);
    assert!(!surface.needs_resize(320, 240));

    assert_eq!(surface.resize(320, 240, attachment(3, 320, 240), attachment(4, 320, 240)), Ok(()));
    assert_eq!(surface.size(), (320, 240));

    assert_eq!(surface.resize(320, 240, None, None), Err(AllocationError));
    assert_eq!(surface.size(), (320, 240));
    assert!(!surface.needs_resize(320, 240));
}

#[test]
fn needs_resize_tells_a_changed_size_from_the_current_one() {
    let surface = surface(320, 240, 1, 2);
    assert!(!surface.needs_resize(320, 240));
    assert!(surface.needs_resize(321, 240));
    assert!(surface.needs_resize(320, 239));
    assert!(surface.needs_resize(240, 320));
    assert!(surface.needs_resize(0, 0));
}

#[test]
fn only_sizes_without_a_zero_side_can_be_allocated() {
    assert!(RenderSurface::<u32, u32>::can_allocate(1, 1));
    assert!(RenderSurface::<u32, u32>::can_allocate(4_294_967_295, 4_294_967_295));
    assert!(!RenderSurface::<u32, u32>::can_allocate(0, 1));
    assert!(!RenderSurface::<u32, u32>::can_allocate(1, 0));
    assert!(!RenderSurface::<u32, u32>::can_allocate(0, 0));
}

#[test]
fn frame_buffer_is_taken_anew_after_each_resize() {
    let mut surface = surface(8, 8, 1, 2);
    {
        let target = surface.frame_buffer();
        assert_eq!((*target.color, *target.depth), (1, 2));
    }
    surface.resize(16, 8, attachment(3, 16, 8), attachment(4, 16, 8)).unwrap();
    let target = surface.frame_buffer();
    assert_eq!((*target.color, *target.depth), (3, 4));
    assert_eq!((target.width, target.height), (16, 8));
}

#[test]
fn screen_dim_holds_width_and_height() {
    let surface = surface(640, 480, 1, 2);
    let dim = ScreenDim { width: surface.width(), height: surface.height() };
    assert_eq!(dim, ScreenDim { width: 640, height: 480 });
    assert_ne!(dim, ScreenDim { width: 480, height: 640 });
    let copy = dim;
    assert_eq!(copy.width, 640);
    assert_eq!(dim.height, 480);
}
