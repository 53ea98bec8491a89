//! Where prebuilt tool binaries are downloaded from.
use vstd::prelude::*;
use vstd::string::*;
use crate::text::str_eq;

verus! {

/// The platforms that prebuilt binaries exist for.
#[derive(Debug, Clone, Copy, PartialEq, Eq, Structural)]
pub enum Platform {
    LinuxX86_64,
    MacosX86_64,
    WindowsX86_64,
    Unsupported,
}

pub open spec fn target_triple(p: Platform) -> Option<Seq<char>> {
    match p {
        Platform::LinuxX86_64 => Some("x86_64-unknown-linux-musl"@),
        Platform::MacosX86_64 => Some("x86_64-apple-darwin"@),
        Platform::WindowsX86_64 => Some("x86_64-pc-windows-msvc"@),
        Platform::Unsupported => None,
    }
}

/// The download URL of a prebuilt release of `tool_name`.
pub open spec fn prebuilt_url_spec(
    tool_name: Seq<char>,
    owner: Seq<char>,
    version: Seq<char>,
    platform: Platform,
) -> Option<Seq<char>> {
    if tool_name == "wranglerjs"@ {
        Some(
            "https://github.com/cloudflare/wrangler/releases/download/v"@ + version + "/"@
                + tool_name + "-v"@ + version + ".tar.gz"@,
        )
    } else {
        match target_triple(platform) {
            Some(t) => Some(
                "https://github.com/"@ + owner + "/"@ + tool_name + "/releases/download/v"@
                    + version + "/"@ + tool_name + "-v"@ + version + "-"@ + t + ".tar.gz"@,
            ),
            None => None,
        }
    }
}

fn target_str(platform: Platform) -> (r: Option<&'static str>)
    ensures
        match r {
            Some(t) => target_triple(platform) == Some(t@),
            None => target_triple(platform) is None,
        },
{
    match platform {
        Platform::LinuxX86_64 => Some("x86_64-unknown-linux-musl"),
        Platform::MacosX86_64 => Some("x86_64-apple-darwin"),
        Platform::WindowsX86_64 => Some("x86_64-pc-windows-msvc"),
        Platform::Unsupported => None,
    }
}

/// The download URL of a prebuilt release, `None` where the platform has
/// none.
pub fn prebuilt_url(tool_name: &str, owner: &str, version: &str, platform: Platform) -> (r: Option<
    String,
>)
    ensures
        match r {
            Some(u) => prebuilt_url_spec(tool_name@, owner@, version@, platform) == Some(u@),
            None => prebuilt_url_spec(tool_name@, owner@, version@, platform) is None,
        },
{
    if str_eq(tool_name, "wranglerjs") {
        let mut u = "https://github.com/cloudflare/wrangler/releases/download/v".to_owned();
        u.append(version);
        u.append("/");
        u.append(tool_name);
        u.append("-v");
        u.append(version);
        u.append(".tar.gz");
        Some(u)
    } else {
        match target_str(platform) {
            Some(t) => {
                let mut u = "https://github.com/".to_owned();
                u.append(owner);
                u.append("/");
                u.append(tool_name);
                u.append("/releases/download/v");
                u.append(version);
                u.append("/");
                u.append(tool_name);
                u.append("-v");
                u.append(version);
                u.append("-");
                u.append(t);
                u.append(".tar.gz");
                Some(u)
            },
            None => None,
        }
    }
}

} // verus!
