use bgclipper::application::clipboard_service::{ClipboardService, ProcessResult};
use bgclipper::domain::color::Color;
use bgclipper::domain::port::{ClipboardPort, ConfigPort, ImageData};
use std::cell::{Cell as StdCell, RefCell};

// -- Mock ClipboardPort --

#[derive(Debug)]
struct MockClipboard {
    image: RefCell<Option<ImageData>>,
    counter: StdCell<u64>,
}

#[derive(Debug)]
struct MockClipboardError(String);

impl std::fmt::Display for MockClipboardError {
    fn fmt(&self, f: &mut std::fmt::Formatter<'_>) -> std::fmt::Result {
        f.write_str(&self.0)
    }
}

impl std::error::Error for MockClipboardError {}

impl ClipboardPort for MockClipboard {
    type Error = MockClipboardError;

    fn change_count(&self) -> Result<u64, Self::Error> {
        Ok(self.counter.get())
    }

    fn get_image(&self) -> Result<Option<ImageData>, Self::Error> {
        Ok(self.image.borrow().clone())
    }

    fn set_image(&self, image: &ImageData) -> Result<(), Self::Error> {
        *self.image.borrow_mut() = Some(image.clone());
        // Increment counter to simulate OS behavior
        self.counter.set(self.counter.get() + 1);
        Ok(())
    }
}

// -- Mock ConfigPort --

#[derive(Debug)]
struct MockConfig {
    color: Color,
}

#[derive(Debug)]
struct MockConfigError(String);

impl std::fmt::Display for MockConfigError {
    fn fmt(&self, f: &mut std::fmt::Formatter<'_>) -> std::fmt::Result {
        f.write_str(&self.0)
    }
}

impl std::error::Error for MockConfigError {}

impl ConfigPort for MockConfig {
    type Error = MockConfigError;

    fn load_target_color(&self) -> Result<Color, Self::Error> {
        Ok(self.color)
    }

    fn save_target_color(&self, _color: &Color) -> Result<(), Self::Error> {
        Ok(())
    }

    fn ensure_config_exists(&self) -> Result<(), Self::Error> {
        Ok(())
    }
}

fn make_service(
    image: Option<ImageData>,
    target: Color,
) -> ClipboardService<MockClipboard, MockConfig> {
    ClipboardService::new(
        MockClipboard {
            image: RefCell::new(image),
            // Start at 1
            counter: StdCell::new(1),
        },
        MockConfig { color: target },
    )
}

#[test]
fn returns_no_image_when_clipboard_empty() {
    let mut service = make_service(None, Color::default());
    let result = service.process_clipboard().unwrap();
    assert_eq!(result, ProcessResult::NoImage);
}

#[test]
fn processes_image_and_makes_target_transparent() {
    let image = ImageData {
        pixels: vec![255, 255, 255, 255, 0, 0, 0, 255],
        width: 2,
        height: 1,
    };
    let mut service = make_service(Some(image), Color::new(255, 255, 255));

    let result = service.process_clipboard().unwrap();
    assert_eq!(result, ProcessResult::Processed);

    let written = service.clipboard().image.borrow();
    let written = written.as_ref().unwrap();
    assert_eq!(written.pixels, vec![255, 255, 255, 0, 0, 0, 0, 255]);
    assert_eq!(written.width, 2);
    assert_eq!(written.height, 1);
}

#[test]
fn non_matching_pixels_unchanged() {
    let image = ImageData {
        pixels: vec![0, 0, 0, 255, 128, 128, 128, 255],
        width: 2,
        height: 1,
    };
    let mut service = make_service(Some(image), Color::new(255, 255, 255));

    service.process_clipboard().unwrap();

    // No pixels matched, so image is unchanged in clipboard
    let written = service.clipboard().image.borrow();
    let written = written.as_ref().unwrap();
    assert_eq!(written.pixels, vec![0, 0, 0, 255, 128, 128, 128, 255]);
}

#[test]
fn uses_configured_target_color() {
    let image = ImageData {
        pixels: vec![0, 0, 0, 255, 255, 255, 255, 255],
        width: 2,
        height: 1,
    };
    let mut service = make_service(Some(image), Color::new(0, 0, 0));

    service.process_clipboard().unwrap();

    let written = service.clipboard().image.borrow();
    let written = written.as_ref().unwrap();
    assert_eq!(written.pixels, vec![0, 0, 0, 0, 255, 255, 255, 255]);
}

#[test]
fn skips_when_change_count_unchanged() {
    let image = ImageData {
        pixels: vec![255, 255, 255, 255, 0, 0, 0, 255],
        width: 2,
        height: 1,
    };
    let mut service = make_service(Some(image), Color::new(255, 255, 255));

    // First call processes (counter=1 != last=0)
    let result = service.process_clipboard().unwrap();
    assert_eq!(result, ProcessResult::Processed);

    // Second call: counter was updated after set_image, so it matches last
    let result = service.process_clipboard().unwrap();
    assert_eq!(result, ProcessResult::Skipped);
}

#[test]
fn processes_after_external_clipboard_change() {
    let image1 = ImageData {
        pixels: vec![255, 255, 255, 255],
        width: 1,
        height: 1,
    };
    let mut service = make_service(Some(image1), Color::new(255, 255, 255));

    assert_eq!(
        service.process_clipboard().unwrap(),
        ProcessResult::Processed
    );
    assert_eq!(service.process_clipboard().unwrap(), ProcessResult::Skipped);

    // Simulate external clipboard change: new image + bump counter
    *service.clipboard().image.borrow_mut() = Some(ImageData {
        pixels: vec![100, 100, 100, 255],
        width: 1,
        height: 1,
    });
    service
        .clipboard()
        .counter
        .set(service.clipboard().counter.get() + 1);

    // Should process the new image
    assert_eq!(
        service.process_clipboard().unwrap(),
        ProcessResult::Processed
    );
}

// -- A clipboard that counts its calls and fails on demand --

#[derive(Debug)]
struct ScriptedClipboard {
    image: RefCell<Option<ImageData>>,
    counter: StdCell<u64>,
    count_calls: StdCell<u32>,
    get_calls: StdCell<u32>,
    set_calls: StdCell<u32>,
    /// Which call of `change_count` fails, counted from 1; 0 for none.
    failing_count_call: u32,
    fail_get: bool,
    fail_set: bool,
}

impl ScriptedClipboard {
    fn holding(image: Option<ImageData>) -> Self {
        ScriptedClipboard {
            image: RefCell::new(image),
            counter: StdCell::new(1),
            count_calls: StdCell::new(0),
            get_calls: StdCell::new(0),
            set_calls: StdCell::new(0),
            failing_count_call: 0,
            fail_get: false,
            fail_set: false,
        }
    }
}

impl ClipboardPort for ScriptedClipboard {
    type Error = MockClipboardError;

    fn change_count(&self) -> Result<u64, Self::Error> {
        self.count_calls.set(self.count_calls.get() + 1);
        if self.count_calls.get() == self.failing_count_call {
            return Err(MockClipboardError("counter gone".to_string()));
        }
        Ok(self.counter.get())
    }

    fn get_image(&self) -> Result<Option<ImageData>, Self::Error> {
        self.get_calls.set(self.get_calls.get() + 1);
        if self.fail_get {
            return Err(MockClipboardError("clipboard busy".to_string()));
        }
        Ok(self.image.borrow().clone())
    }

    fn set_image(&self, image: &ImageData) -> Result<(), Self::Error> {
        self.set_calls.set(self.set_calls.get() + 1);
        if self.fail_set {
            return Err(MockClipboardError("clipboard locked".to_string()));
        }
        *self.image.borrow_mut() = Some(image.clone());
        self.counter.set(self.counter.get() + 1);
        Ok(())
    }
}

#[derive(Debug)]
struct FailingConfig {
    message: String,
    load_calls: StdCell<u32>,
}

impl ConfigPort for FailingConfig {
    type Error = MockConfigError;

    fn load_target_color(&self) -> Result<Color, Self::Error> {
        self.load_calls.set(self.load_calls.get() + 1);
        Err(MockConfigError(self.message.clone()))
    }

    fn save_target_color(&self, _color: &Color) -> Result<(), Self::Error> {
        Ok(())
    }

    fn ensure_config_exists(&self) -> Result<(), Self::Error> {
        Ok(())
    }
}

fn white_and_black() -> ImageData {
    ImageData {
        pixels: vec![255, 255, 255, 255, 0, 0, 0, 255],
        width: 2,
        height: 1,
    }
}

#[test]
fn new_service_has_seen_nothing() {
    let service = make_service(None, Color::default());
    assert_eq!(service.last_change_count(), None);
    assert_eq!(service.config().color, Color::default());
    assert_eq!(service.clipboard().counter.get(), 1);
}

#[test]
fn empty_clipboard_is_noted_then_skipped() {
    let mut service = ClipboardService::new(
        ScriptedClipboard::holding(None),
        MockConfig {
            color: Color::default(),
        },
    );
    assert_eq!(service.process_clipboard(), Ok(ProcessResult::NoImage));
    assert_eq!(service.last_change_count(), Some(1));
    assert_eq!(service.process_clipboard(), Ok(ProcessResult::Skipped));
    assert_eq!(service.last_change_count(), Some(1));
    // the second poll read the counter and nothing else
    assert_eq!(service.clipboard().count_calls.get(), 2);
    assert_eq!(service.clipboard().get_calls.get(), 1);
    assert_eq!(service.clipboard().set_calls.get(), 0);
}

#[test]
fn white_target_clears_white_pixel() {
    let mut service = ClipboardService::new(
        ScriptedClipboard::holding(Some(white_and_black())),
        MockConfig {
            color: Color::new(255, 255, 255),
        },
    );
    assert_eq!(service.process_clipboard(), Ok(ProcessResult::Processed));
    assert_eq!(
        service.clipboard().image.borrow().as_ref().unwrap().pixels,
        vec![255, 255, 255, 0, 0, 0, 0, 255]
    );
    assert_eq!(service.clipboard().set_calls.get(), 1);
    // the counter was read before the poll and again after the write
    assert_eq!(service.clipboard().count_calls.get(), 2);
    assert_eq!(service.last_change_count(), Some(2));
}

#[test]
fn black_target_clears_black_pixel() {
    let mut service = ClipboardService::new(
        ScriptedClipboard::holding(Some(white_and_black())),
        MockConfig {
            color: Color::new(0, 0, 0),
        },
    );
    assert_eq!(service.process_clipboard(), Ok(ProcessResult::Processed));
    let held = service.clipboard().image.borrow();
    let held = held.as_ref().unwrap();
    assert_eq!(held.pixels, vec![255, 255, 255, 255, 0, 0, 0, 0]);
    assert_eq!(held.width, 2);
    assert_eq!(held.height, 1);
}

#[test]
fn image_without_match_is_not_written_back() {
    let mut service = ClipboardService::new(
        ScriptedClipboard::holding(Some(white_and_black())),
        MockConfig {
            color: Color::new(10, 20, 30),
        },
    );
    assert_eq!(service.process_clipboard(), Ok(ProcessResult::Processed));
    assert_eq!(service.clipboard().set_calls.get(), 0);
    assert_eq!(
        service.clipboard().image.borrow().as_ref().unwrap(),
        &white_and_black()
    );
    // the counter read at the start is kept, so the same image is not scanned again
    assert_eq!(service.last_change_count(), Some(1));
    assert_eq!(service.clipboard().count_calls.get(), 1);
    assert_eq!(service.process_clipboard(), Ok(ProcessResult::Skipped));
    assert_eq!(service.clipboard().get_calls.get(), 1);
}

#[test]
fn own_write_is_skipped_and_foreign_write_is_processed() {
    let mut service = ClipboardService::new(
        ScriptedClipboard::holding(Some(white_and_black())),
        MockConfig {
            color: Color::new(255, 255, 255),
        },
    );
    assert_eq!(service.process_clipboard(), Ok(ProcessResult::Processed));
    assert_eq!(service.process_clipboard(), Ok(ProcessResult::Skipped));
    assert_eq!(service.process_clipboard(), Ok(ProcessResult::Skipped));
    assert_eq!(service.clipboard().set_calls.get(), 1);

    // somebody else writes other content
    *service.clipboard().image.borrow_mut() = Some(ImageData {
        pixels: vec![1, 2, 3, 255, 255, 255, 255, 255],
        width: 2,
        height: 1,
    });
    service
        .clipboard()
        .counter
        .set(service.clipboard().counter.get() + 1);

    assert_eq!(service.process_clipboard(), Ok(ProcessResult::Processed));
    assert_eq!(
        service.clipboard().image.borrow().as_ref().unwrap().pixels,
        vec![1, 2, 3, 255, 255, 255, 255, 0]
    );
    assert_eq!(service.clipboard().set_calls.get(), 2);
    assert_eq!(service.process_clipboard(), Ok(ProcessResult::Skipped));
}

#[test]
fn buffer_of_three_bytes_fails_the_poll() {
    let broken = ImageData {
        pixels: vec![255, 255, 255],
        width: 1,
        height: 1,
    };
    let mut service = ClipboardService::new(
        ScriptedClipboard::holding(Some(broken.clone())),
        MockConfig {
            color: Color::new(255, 255, 255),
        },
    );
    assert_eq!(
        service.process_clipboard(),
        Err("pixel buffer length must be a multiple of 4, got 3".to_string())
    );
    // neither cut nor padded, nothing written, nothing remembered
    assert_eq!(service.clipboard().set_calls.get(), 0);
    assert_eq!(
        service.clipboard().image.borrow().as_ref().unwrap(),
        &broken
    );
    assert_eq!(service.last_change_count(), None);
}

#[test]
fn failing_counter_fails_the_poll() {
    let mut clipboard = ScriptedClipboard::holding(Some(white_and_black()));
    clipboard.failing_count_call = 1;
    let mut service = ClipboardService::new(
        clipboard,
        MockConfig {
            color: Color::default(),
        },
    );
    assert_eq!(
        service.process_clipboard(),
        Err("failed to read change count: counter gone".to_string())
    );
    assert_eq!(service.last_change_count(), None);
    assert_eq!(service.clipboard().get_calls.get(), 0);
}

#[test]
fn failing_read_fails_the_poll() {
    let mut clipboard = ScriptedClipboard::holding(Some(white_and_black()));
    clipboard.fail_get = true;
    let mut service = ClipboardService::new(
        clipboard,
        MockConfig {
            color: Color::default(),
        },
    );
    assert_eq!(
        service.process_clipboard(),
        Err("failed to read clipboard: clipboard busy".to_string())
    );
    assert_eq!(service.last_change_count(), None);
    assert_eq!(service.clipboard().set_calls.get(), 0);
}

#[test]
fn failing_config_fails_the_poll() {
    let mut service = ClipboardService::new(
        ScriptedClipboard::holding(Some(white_and_black())),
        FailingConfig {
            message: "config parse error: expected `=`".to_string(),
            load_calls: StdCell::new(0),
        },
    );
    assert_eq!(
        service.process_clipboard(),
        Err("failed to load config: config parse error: expected `=`".to_string())
    );
    assert_eq!(service.last_change_count(), None);
    assert_eq!(service.config().load_calls.get(), 1);
    assert_eq!(service.clipboard().set_calls.get(), 0);
    assert_eq!(
        service.clipboard().image.borrow().as_ref().unwrap(),
        &white_and_black()
    );
}

#[test]
fn config_is_not_loaded_for_an_empty_clipboard() {
    let mut service = ClipboardService::new(
        ScriptedClipboard::holding(None),
        FailingConfig {
            message: "never asked".to_string(),
            load_calls: StdCell::new(0),
        },
    );
    assert_eq!(service.process_clipboard(), Ok(ProcessResult::NoImage));
    assert_eq!(service.config().load_calls.get(), 0);
}

#[test]
fn failing_write_fails_the_poll() {
    let mut clipboard = ScriptedClipboard::holding(Some(white_and_black()));
    clipboard.fail_set = true;
    let mut service = ClipboardService::new(
        clipboard,
        MockConfig {
            color: Color::default(),
        },
    );
    assert_eq!(
        service.process_clipboard(),
        Err("failed to write clipboard: clipboard locked".to_string())
    );
    assert_eq!(service.last_change_count(), None);
    assert_eq!(
        service.clipboard().image.borrow().as_ref().unwrap(),
        &white_and_black()
    );
}

#[test]
fn failing_recount_fails_the_poll() {
    let mut clipboard = ScriptedClipboard::holding(Some(white_and_black()));
    clipboard.failing_count_call = 2;
    let mut service = ClipboardService::new(
        clipboard,
        MockConfig {
            color: Color::default(),
        },
    );
    assert_eq!(
        service.process_clipboard(),
        Err("failed to read change count after write: counter gone".to_string())
    );
    // the image is written, but the fingerprint stays: the next poll starts over
    assert_eq!(service.clipboard().set_calls.get(), 1);
    assert_eq!(service.last_change_count(), None);
}

#[test]
fn poll_after_a_failure_starts_from_scratch() {
    let mut clipboard = ScriptedClipboard::holding(Some(white_and_black()));
    clipboard.failing_count_call = 1;
    let mut service = ClipboardService::new(
        clipboard,
        MockConfig {
            color: Color::new(255, 255, 255),
        },
    );
    assert!(service.process_clipboard().is_err());
    assert_eq!(service.process_clipboard(), Ok(ProcessResult::Processed));
    assert_eq!(
        service.clipboard().image.borrow().as_ref().unwrap().pixels,
        vec![255, 255, 255, 0, 0, 0, 0, 255]
    );
}

/// Sets a known image on the clipboard, runs the service, then reads the
/// clipboard back and verifies that the target-color pixels have alpha = 0.
#[test]
fn clipboard_roundtrip_preserves_transparency() {
    // 2x2 image: top-left = background (red), rest = other colors
    // Target: red RGB(255, 0, 0)
    let input_pixels: Vec<u8> = vec![
        255,   0,   0, 255, //  (0,0) red   -> should become transparent
          0, 255,   0, 255, //  (1,0) green -> unchanged
          0,   0, 255, 255, //  (0,1) blue  -> unchanged
        255,   0,   0, 255, //  (1,1) red   -> should become transparent
    ];
    let width: u32 = 2;
    let height: u32 = 2;

    // Step 1: Put the input image on the clipboard
    let clipboard = ScriptedClipboard::holding(Some(ImageData {
        pixels: input_pixels,
        width,
        height,
    }));

    // Step 2: Run the service with a fixed config
    let config = MockConfig {
        color: Color::new(255, 0, 0),
    };
    let mut service = ClipboardService::new(clipboard, config);

    let result = service
        .process_clipboard()
        .expect("process_clipboard failed");
    assert_eq!(result, ProcessResult::Processed);

    // Step 3: Read the image back from the clipboard
    let output = service
        .clipboard()
        .get_image()
        .expect("failed to get image")
        .expect("failed to get image");

    assert_eq!(output.width as usize, width as usize);
    assert_eq!(output.height as usize, height as usize);

    let px = output.pixels;
    assert_eq!(px.len(), 16, "expected 2x2 RGBA = 16 bytes");

    // Pixel (0,0): was red -> alpha must be 0
    assert_eq!(px[3], 0, "pixel (0,0) alpha should be 0, got {}", px[3]);

    // Pixel (1,0): was green -> unchanged
    assert_eq!(px[4], 0, "pixel (1,0) R");
    assert_eq!(px[5], 255, "pixel (1,0) G");
    assert_eq!(px[6], 0, "pixel (1,0) B");
    assert_eq!(px[7], 255, "pixel (1,0) A should remain 255");

    // Pixel (0,1): was blue -> unchanged
    assert_eq!(px[8], 0, "pixel (0,1) R");
    assert_eq!(px[9], 0, "pixel (0,1) G");
    assert_eq!(px[10], 255, "pixel (0,1) B");
    assert_eq!(px[11], 255, "pixel (0,1) A should remain 255");

    // Pixel (1,1): was red -> alpha must be 0
    assert_eq!(px[15], 0, "pixel (1,1) alpha should be 0, got {}", px[15]);
}

fn clipboard_at_counter_zero(image: Option<ImageData>) -> ScriptedClipboard {
    let clipboard = ScriptedClipboard::holding(image);
    clipboard.counter.set(0);
    clipboard
}

#[test]
fn first_poll_is_not_skipped_when_counter_reads_zero() {
    let mut service = ClipboardService::new(
        clipboard_at_counter_zero(Some(white_and_black())),
        MockConfig {
            color: Color::new(255, 255, 255),
        },
    );
    assert_eq!(service.last_change_count(), None);
    assert_eq!(service.process_clipboard(), Ok(ProcessResult::Processed));
    assert_eq!(
        service.clipboard().image.borrow().as_ref().unwrap().pixels,
        vec![255, 255, 255, 0, 0, 0, 0, 255]
    );
    assert_eq!(service.last_change_count(), Some(1));
    assert_eq!(service.process_clipboard(), Ok(ProcessResult::Skipped));
}

#[test]
fn first_poll_notes_empty_clipboard_when_counter_reads_zero() {
    let mut service = ClipboardService::new(
        clipboard_at_counter_zero(None),
        MockConfig {
            color: Color::default(),
        },
    );
    assert_eq!(service.process_clipboard(), Ok(ProcessResult::NoImage));
    assert_eq!(service.last_change_count(), Some(0));
    assert_eq!(service.process_clipboard(), Ok(ProcessResult::Skipped));
    assert_eq!(service.last_change_count(), Some(0));
}

#[test]
fn unmatched_image_at_counter_zero_is_scanned_once() {
    let mut service = ClipboardService::new(
        clipboard_at_counter_zero(Some(white_and_black())),
        MockConfig {
            color: Color::new(10, 20, 30),
        },
    );
    assert_eq!(service.process_clipboard(), Ok(ProcessResult::Processed));
    assert_eq!(service.clipboard().set_calls.get(), 0);
    assert_eq!(service.last_change_count(), Some(0));
    assert_eq!(service.process_clipboard(), Ok(ProcessResult::Skipped));
    assert_eq!(service.clipboard().get_calls.get(), 1);
}

#[test]
fn failed_first_poll_leaves_nothing_seen() {
    let mut clipboard = clipboard_at_counter_zero(Some(white_and_black()));
    clipboard.fail_get = true;
    let mut service = ClipboardService::new(
        clipboard,
        MockConfig {
            color: Color::default(),
        },
    );
    assert!(service.process_clipboard().is_err());
    assert_eq!(service.last_change_count(), None);
}
