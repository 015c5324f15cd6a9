//! The status line that the heightmap panel shows after an import attempt.

use vstd::prelude::*;

verus! {

/// The decimal digit `d` (0 to 9) as a character.
pub open spec fn digit_char(d: int) -> char {
    seq!['0', '1', '2', '3', '4', '5', '6', '7', '8', '9'][d]
}

/// The decimal notation of `n`, without leading zeros.
pub open spec fn decimal(n: nat) -> Seq<char>
    decreases n,
{
    if n < 10 {
        seq![digit_char(n as int)]
    } else {
        decimal(n / 10).push(digit_char((n % 10) as int))
    }
}

/// Whether `c` is one of the characters '0' to '9'.
pub open spec fn is_digit(c: char) -> bool {
    48 <= (c as int) <= 57
}

/// The value of the digit character `c` ('0' is 0, '9' is 9).
pub open spec fn digit_value(c: char) -> int {
    (c as int) - 48
}

/// The number that the digit characters of `s` denote in base 10, most significant first.
pub open spec fn digits_value(s: Seq<char>) -> int
    decreases s.len(),
{
    if s.len() == 0 {
        0
    } else {
        digits_value(s.drop_last()) * 10 + digit_value(s.last())
    }
}

proof fn lemma_digit_char(d: int)
    requires
        0 <= d < 10,
    ensures
        is_digit(digit_char(d)),
        digit_value(digit_char(d)) == d,
{
    let t = seq!['0', '1', '2', '3', '4', '5', '6', '7', '8', '9'];
    assert(t[0] == '0' && t[1] == '1' && t[2] == '2' && t[3] == '3' && t[4] == '4');
    assert(t[5] == '5' && t[6] == '6' && t[7] == '7' && t[8] == '8' && t[9] == '9');
}

/// The decimal notation of `n` reads back as `n`: it is a non-empty string of digits,
/// without a leading zero unless it is "0", whose value in base 10 is `n`.
pub proof fn lemma_decimal_reads_back(n: nat)
    ensures
        decimal(n).len() >= 1,
        forall|i: int| 0 <= i < decimal(n).len() ==> is_digit(#[trigger] decimal(n)[i]),
        digits_value(decimal(n)) == n,
        n >= 1 ==> decimal(n)[0] != '0',
        n == 0 ==> decimal(n) == seq!['0'],
    decreases n,
{
    if n < 10 {
        lemma_digit_char(n as int);
        let s = decimal(n);
        assert(s.drop_last() =~= Seq::<char>::empty());
        assert(digits_value(s.drop_last()) == 0);
        if n == 0 {
            assert(digit_char(0) == '0');
        } else {
            assert(digit_value(s[0]) == n);
        }
    } else {
        lemma_decimal_reads_back(n / 10);
        lemma_digit_char((n % 10) as int);
        let p = decimal(n / 10);
        let s = decimal(n);
        assert(s == p.push(digit_char((n % 10) as int)));
        assert(s.drop_last() =~= p);
        assert(s[0] == p[0]);
        assert forall|i: int| 0 <= i < s.len() implies is_digit(#[trigger] s[i]) by {
            if i < p.len() {
                assert(s[i] == p[i]);
            }
        }
    }
}

/// The one-character string of the decimal digit `d`.
fn digit_str(d: u32) -> (s: &'static str)
    requires
        d < 10,
    ensures
        s@ == seq![digit_char(d as int)],
{
    match d {
        0 => {
            proof {
                reveal_strlit("0");
            }
            "0"
        },
        1 => {
            proof {
                reveal_strlit("1");
            }
            "1"
        },
        2 => {
            proof {
                reveal_strlit("2");
            }
            "2"
        },
        3 => {
            proof {
                reveal_strlit("3");
            }
            "3"
        },
        4 => {
            proof {
                reveal_strlit("4");
            }
            "4"
        },
        5 => {
            proof {
                reveal_strlit("5");
            }
            "5"
        },
        6 => {
            proof {
                reveal_strlit("6");
            }
            "6"
        },
        7 => {
            proof {
                reveal_strlit("7");
            }
            "7"
        },
        8 => {
            proof {
                reveal_strlit("8");
            }
            "8"
        },
        _ => {
            proof {
                reveal_strlit("9");
            }
            "9"
        },
    }
}

/// Writes `n` in decimal.
pub fn decimal_string(n: u32) -> (s: String)
    ensures
        s@ == decimal(n as nat),
        s@.len() >= 1,
        forall|i: int| 0 <= i < s@.len() ==> is_digit(#[trigger] s@[i]),
        digits_value(s@) == n,
        n >= 1 ==> s@[0] != '0',
    decreases n,
{
    proof {
        lemma_decimal_reads_back(n as nat);
    }
    if n < 10 {
        let mut s = String::new();
        s.append(digit_str(n));
        s
    } else {
        let mut s = decimal_string(n / 10);
        s.append(digit_str(n % 10));
        s
    }
}

/// What happened to a heightmap import, as far as the status line tells it.
#[derive(Clone, Copy, Debug, PartialEq, Eq, Structural)]
pub enum ImportEvent {
    /// The image was read and decoded, and the terrain mesh was replaced.
    Loaded { width: u32, height: u32 },
    /// The image was decoded but no terrain entity was found to receive it.
    NoTerrain,
    /// The file could not be read, or its bytes not decoded.
    ReadFailed,
    /// In the browser: the image was decoded and the terrain mesh replaced.
    WebLoaded { width: u32, height: u32 },
    /// In the browser: the bytes could not be decoded.
    WebDecodeFailed,
    /// In the browser: the file dialog was opened.
    WebDialogOpened,
    /// In the browser: the queue of loaded files was never set up.
    WebQueueMissing,
}

/// The event that an import attempt reports: `decoded` holds the width and height of the
/// decoded heightmap, if it could be decoded, and `terrain_found` whether a terrain entity
/// received its mesh; `web` tells the browser build from the native one.
pub open spec fn import_outcome(decoded: Option<(u32, u32)>, terrain_found: bool, web: bool) -> ImportEvent {
    match decoded {
        Some((width, height)) => if !terrain_found {
            ImportEvent::NoTerrain
        } else if web {
            ImportEvent::WebLoaded { width, height }
        } else {
            ImportEvent::Loaded { width, height }
        },
        None => if web {
            ImportEvent::WebDecodeFailed
        } else {
            ImportEvent::ReadFailed
        },
    }
}

/// Decides which event an import attempt reports (see `import_outcome`).
pub fn import_event(decoded: Option<(u32, u32)>, terrain_found: bool, web: bool) -> (event: ImportEvent)
    ensures
        event == import_outcome(decoded, terrain_found, web),
        match decoded {
            Some((w, h)) => terrain_found ==> event == (if web {
                ImportEvent::WebLoaded { width: w, height: h }
            } else {
                ImportEvent::Loaded { width: w, height: h }
            }),
            None => true,
        },
        decoded is Some && !terrain_found ==> event == ImportEvent::NoTerrain,
        decoded is None && !web ==> event == ImportEvent::ReadFailed,
        decoded is None && web ==> event == ImportEvent::WebDecodeFailed,
{
    match decoded {
        Some((width, height)) => {
            if !terrain_found {
                ImportEvent::NoTerrain
            } else if web {
                ImportEvent::WebLoaded { width, height }
            } else {
                ImportEvent::Loaded { width, height }
            }
        },
        None => {
            if web {
                ImportEvent::WebDecodeFailed
            } else {
                ImportEvent::ReadFailed
            }
        },
    }
}

/// An import reports the decoded size unchanged when a terrain received the heightmap,
/// that no terrain was found when none did, and a failure exactly when nothing decoded.
pub proof fn lemma_import_outcome(decoded: Option<(u32, u32)>, terrain_found: bool, web: bool)
    ensures
        match decoded {
            Some((w, h)) => terrain_found ==> import_outcome(decoded, terrain_found, web) == (if web {
                ImportEvent::WebLoaded { width: w, height: h }
            } else {
                ImportEvent::Loaded { width: w, height: h }
            }),
            None => true,
        },
        decoded is Some && !terrain_found ==> import_outcome(decoded, terrain_found, web)
            == ImportEvent::NoTerrain,
        decoded is None ==> import_outcome(decoded, terrain_found, web) == (if web {
            ImportEvent::WebDecodeFailed
        } else {
            ImportEvent::ReadFailed
        }),
{
}

/// The text reporting that an image of `width * height` pixels replaced the terrain.
pub open spec fn loaded_text(width: u32, height: u32) -> Seq<char> {
    "已载入: "@ + decimal(width as nat) + "x"@ + decimal(height as nat) + "，替换地形网格"@
}

/// The status line for each import event.
pub open spec fn status_text(event: ImportEvent) -> Seq<char> {
    match event {
        ImportEvent::Loaded { width, height } => loaded_text(width, height),
        ImportEvent::NoTerrain => "未找到 Terrain 实体"@,
        ImportEvent::ReadFailed => "读取或解析 PNG 失败"@,
        ImportEvent::WebLoaded { width, height } => "(WASM) "@ + loaded_text(width, height),
        ImportEvent::WebDecodeFailed => "(WASM) 解析 PNG 失败"@,
        ImportEvent::WebDialogOpened => "(WASM) 已打开文件选择对话框"@,
        ImportEvent::WebQueueMissing => "(WASM) 文件队列未初始化"@,
    }
}

/// Appends the text reporting a loaded image of `width * height` pixels.
fn append_loaded(s: &mut String, width: u32, height: u32)
    ensures
        final(s)@ == old(s)@ + loaded_text(width, height),
{
    s.append("已载入: ");
    let w = decimal_string(width);
    s.append(w.as_str());
    s.append("x");
    let h = decimal_string(height);
    s.append(h.as_str());
    s.append("，替换地形网格");
}

/// The status line that the heightmap panel shows for `event`.
pub fn status_message(event: ImportEvent) -> (s: String)
    ensures
        s@ == status_text(event),
        event matches ImportEvent::Loaded { width, height } ==> s@ == "已载入: "@ + decimal(
            width as nat,
        ) + "x"@ + decimal(height as nat) + "，替换地形网格"@,
        event matches ImportEvent::WebLoaded { width, height } ==> s@ == "(WASM) "@ + "已载入: "@
            + decimal(width as nat) + "x"@ + decimal(height as nat) + "，替换地形网格"@,
        event == ImportEvent::NoTerrain ==> s@ == "未找到 Terrain 实体"@,
        event == ImportEvent::ReadFailed ==> s@ == "读取或解析 PNG 失败"@,
        event == ImportEvent::WebDecodeFailed ==> s@ == "(WASM) 解析 PNG 失败"@,
        event == ImportEvent::WebDialogOpened ==> s@ == "(WASM) 已打开文件选择对话框"@,
        event == ImportEvent::WebQueueMissing ==> s@ == "(WASM) 文件队列未初始化"@,
{
    let mut s = String::new();
    match event {
        ImportEvent::Loaded { width, height } => append_loaded(&mut s, width, height),
        ImportEvent::NoTerrain => s.append("未找到 Terrain 实体"),
        ImportEvent::ReadFailed => s.append("读取或解析 PNG 失败"),
        ImportEvent::WebLoaded { width, height } => {
            s.append("(WASM) ");
            append_loaded(&mut s, width, height);
        },
        ImportEvent::WebDecodeFailed => s.append("(WASM) 解析 PNG 失败"),
        ImportEvent::WebDialogOpened => s.append("(WASM) 已打开文件选择对话框"),
        ImportEvent::WebQueueMissing => s.append("(WASM) 文件队列未初始化"),
    }
    s
}

} // verus!
