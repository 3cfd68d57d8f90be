use std::io;
use std::sync::{Arc, Mutex};

use boppo::progress::{file_progress, label_or_path, sync_style, upload_label, upload_style};
use indicatif::{ProgressBar, ProgressDrawTarget, ProgressStyle, TermLike};

/// A terminal that keeps what is written to it.
#[derive(Debug)]
struct Screen {
    written: Arc<Mutex<String>>,
}

impl TermLike for Screen {
    fn width(&self) -> u16 {
        100
    }
    fn move_cursor_up(&self, _n: usize) -> io::Result<()> {
        Ok(())
    }
    fn move_cursor_down(&self, _n: usize) -> io::Result<()> {
        Ok(())
    }
    fn move_cursor_right(&self, _n: usize) -> io::Result<()> {
        Ok(())
    }
    fn move_cursor_left(&self, _n: usize) -> io::Result<()> {
        Ok(())
    }
    fn write_line(&self, s: &str) -> io::Result<()> {
        self.written.lock().unwrap().push_str(s);
        Ok(())
    }
    fn write_str(&self, s: &str) -> io::Result<()> {
        self.written.lock().unwrap().push_str(s);
        Ok(())
    }
    fn clear_line(&self) -> io::Result<()> {
        Ok(())
    }
    fn flush(&self) -> io::Result<()> {
        Ok(())
    }
}

/// What a bar that is half way through looks like.
fn drawn(style: ProgressStyle, message: &str) -> String {
    let written = Arc::new(Mutex::new(String::new()));
    let screen = Screen { written: written.clone() };
    let target = ProgressDrawTarget::term_like(Box::new(screen));
    let bar = ProgressBar::with_draw_target(Some(2048), target);
    bar.set_style(style);
    bar.set_message(message.to_owned());
    bar.set_position(1024);
    bar.force_draw();
    let text = written.lock().unwrap().clone();
    text
}

#[test]
fn an_upload_has_a_bar() {
    let text = drawn(upload_style().unwrap(), "song.mp3");
    assert!(text.contains("song.mp3"));
    assert!(text.contains("==>--"));
    assert!(text.contains("1.00 KiB/2.00 KiB"));
}

#[test]
fn a_sync_has_a_line() {
    let text = drawn(sync_style().unwrap(), "/sd/music");
    assert!(text.contains("Syncing /sd/music"));
    assert!(!text.contains("=>"));
}

#[test]
fn the_label_is_the_file_name() {
    assert_eq!(upload_label("/sd/activities/a.wasm"), "a.wasm");
    assert_eq!(upload_label("a.wasm"), "a.wasm");
    assert_eq!(upload_label("dir/"), "dir");
    assert_eq!(upload_label("dir/."), "dir");
    assert_eq!(upload_label("dir/.//"), "dir");
    assert_eq!(upload_label("./a"), "a");
    assert_eq!(upload_label("..a/.b"), ".b");
    assert_eq!(upload_label("/sd/:a/b"), "b");
    assert_eq!(upload_label("ab:c"), "ab:c");
}

#[test]
fn without_a_file_name_the_label_is_the_path() {
    for path in ["/", "..", "a/..", "", ".", "./", "./.", "/."] {
        assert_eq!(upload_label(path), path);
    }
}

#[test]
fn a_backslash_is_read_as_the_platform_reads_it() {
    let label = upload_label("dir/a\\b");
    assert!(label == "b" || label == "a\\b");
    assert_eq!(upload_label("C:\\dir/b/./"), "b");
    assert_eq!(upload_label("//server/share/b"), "b");
    assert_eq!(upload_label("\\\\server\\share/.."), "\\\\server\\share/..");
}

#[test]
fn the_label_falls_back_to_the_path() {
    assert_eq!(label_or_path(Some("n".to_owned()), "p"), "n");
    assert_eq!(label_or_path(None, "p"), "p");
}

#[test]
fn a_bar_follows_its_upload() {
    let update = file_progress("/sd/a", 10, 100);
    assert_eq!(update.position, 10);
    assert_eq!(update.done, None);
}

#[test]
fn a_complete_upload_becomes_a_line() {
    let update = file_progress("/sd/a", 100, 100);
    assert_eq!(update.position, 100);
    assert_eq!(update.done, Some("Uploaded /sd/a".to_owned()));
    assert_eq!(file_progress("/sd/b", 0, 0).done, Some("Uploaded /sd/b".to_owned()));
    assert_eq!(file_progress("/sd/c", 5, 4).done, Some("Uploaded /sd/c".to_owned()));
}
