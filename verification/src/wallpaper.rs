//! How a photo is put on the desktop, system by system.

use vstd::prelude::*;

verus! {

/// The systems that the desktop may run on.
#[derive(Clone, Copy, Debug, PartialEq, Eq, Structural)]
pub enum Platform {
    Windows,
    Linux,
    MacOs,
}

/// Why a photo cannot be put on the desktop.
#[derive(Clone, Copy, Debug, PartialEq, Eq, Structural)]
pub enum WallpaperError {
    /// Nothing is known about how this system sets its wallpaper.
    Unsupported,
}

/// What has to be done to put a photo on the desktop.
#[derive(Clone, Debug, PartialEq, Eq)]
pub enum WallpaperCommand {
    /// Hand the file at `path` to the system call that sets the desktop
    /// wallpaper, and have the change saved and announced.
    SystemParameter { path: String },
    /// Run `script` with the system's script runner.
    AppleScript { script: String },
}

/// A [`WallpaperCommand`] with its text as sequences of characters.
pub enum WallpaperCommandView {
    SystemParameter { path: Seq<char> },
    AppleScript { script: Seq<char> },
}

impl View for WallpaperCommand {
    type V = WallpaperCommandView;

    open spec fn view(&self) -> WallpaperCommandView {
        match *self {
            WallpaperCommand::SystemParameter { path } => WallpaperCommandView::SystemParameter {
                path: path@,
            },
            WallpaperCommand::AppleScript { script } => WallpaperCommandView::AppleScript {
                script: script@,
            },
        }
    }
}

/// The script that tells the file manager to show the file `path`, given
/// relative to `current_dir`, as the desktop picture.
pub open spec fn finder_script(current_dir: Seq<char>, path: Seq<char>) -> Seq<char> {
    "tell application \"Finder\" to set desktop picture to POSIX file \""@ + current_dir + "/"@
        + path + "\""@
}

/// What `set_wallpaper` answers.
pub open spec fn wallpaper_command(
    platform: Platform,
    current_dir: Seq<char>,
    path: Seq<char>,
) -> Result<WallpaperCommandView, WallpaperError> {
    match platform {
        Platform::Windows => Ok(WallpaperCommandView::SystemParameter { path }),
        Platform::MacOs => Ok(
            WallpaperCommandView::AppleScript { script: finder_script(current_dir, path) },
        ),
        Platform::Linux => Err(WallpaperError::Unsupported),
    }
}

/// Says what has to be done on `platform` to put the photo at `path` on the
/// desktop. `current_dir` is the directory that `path` is relative to.
pub fn set_wallpaper(platform: Platform, current_dir: &str, path: &str) -> (command: Result<
    WallpaperCommand,
    WallpaperError,
>)
    ensures
        match wallpaper_command(platform, current_dir@, path@) {
            Ok(expected) => command is Ok && command->Ok_0@ == expected,
            Err(error) => command == Err::<WallpaperCommand, WallpaperError>(error),
        },
{
    match platform {
        Platform::Windows => Ok(WallpaperCommand::SystemParameter { path: path.to_owned() }),
        Platform::MacOs => {
            let mut script =
                "tell application \"Finder\" to set desktop picture to POSIX file \"".to_owned();
            script.append(current_dir);
            script.append("/");
            script.append(path);
            script.append("\"");
            Ok(WallpaperCommand::AppleScript { script })
        },
        Platform::Linux => Err(WallpaperError::Unsupported),
    }
}

} // verus!
