//! Engine of a read-only hex viewer for the terminal.
//!
//! The crate holds the parts of the viewer that can be reasoned about without
//! a terminal and without a file:
//!
//! - [`sedecim_file_page`] and [`sedecim_file_info`]: the window over the
//!   file, which serves bytes by absolute offset out of a cache of 256-byte
//!   pages;
//! - [`app`]: the state of the viewer and the state machine that moves the
//!   cursor, scrolls the window and jumps to an address typed in hexadecimal;
//! - [`ui`]: the frame that a state puts on screen, as styled lines of text;
//! - [`laws`]: what holds of the state machine over any sequence of events;
//! - [`events`], [`error`], [`numeral`], [`text`]: the values and the small
//!   tools that the above are made of.
//!
//! Reading the file and driving the terminal are left to the program that
//! embeds the engine. It runs the engine like this:
//!
//! ```text
//! let mut app = App::new(args);
//! loop {
//!     while let Some(start) = ui::missing_page(&app) {
//!         // read up to 256 bytes at `start`, and the length of the file
//!         app.insert_page(start, &bytes, file_size);
//!     }
//!     // put ui::draw_ui(&app) on screen, wait for the next event
//!     match app.handle_input(event) {
//!         Action::Quit => break,
//!         Action::Load(start) => { /* read the page and insert it */ }
//!         Action::Continue => {}
//!     }
//! }
//! ```

pub mod app;
pub mod error;
pub mod events;
pub mod laws;
pub mod numeral;
pub mod sedecim_file_info;
pub mod sedecim_file_page;
pub mod text;
pub mod ui;
