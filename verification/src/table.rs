//! The platform/difficulty size table and platform classification.
//!
//! The table maps a platform key to three difficulty entries.  It is
//! rebuilt for every resolution call, carries no state, and every
//! lookup falls back: an unknown platform key falls back to the
//! windows row, an unknown difficulty falls back to that row's
//! beginner entry.

use vstd::prelude::*;

use crate::WindowSize;
use crate::text::str_eq;

verus! {

/// The operating-system family the application runs on.  Everything
/// that is not windows or linux is classified as macos.
#[derive(Clone, Copy, PartialEq, Eq, Structural, Debug)]
pub enum Platform {
    Windows,
    Linux,
    Macos,
}

/// How a raw operating-system name is classified: the two recognized
/// names map to their platform, every other name to macos.
pub open spec fn classify_spec(os: Seq<char>) -> Platform {
    if os == "windows"@ {
        Platform::Windows
    } else if os == "linux"@ {
        Platform::Linux
    } else {
        Platform::Macos
    }
}

/// The table key of a classified platform.
pub open spec fn key_spec(p: Platform) -> Seq<char> {
    match p {
        Platform::Windows => "windows"@,
        Platform::Linux => "linux"@,
        Platform::Macos => "macos"@,
    }
}

impl Platform {
    /// Classify a raw operating-system name.
    pub fn from_os_name(os: &str) -> (p: Platform)
        ensures
            p == classify_spec(os@),
    {
        if str_eq(os, "windows") {
            Platform::Windows
        } else if str_eq(os, "linux") {
            Platform::Linux
        } else {
            Platform::Macos
        }
    }

    /// The key under which this platform's sizes are stored.
    pub fn table_key(self) -> (r: &'static str)
        ensures
            r@ == key_spec(self),
    {
        match self {
            Platform::Windows => "windows",
            Platform::Linux => "linux",
            Platform::Macos => "macos",
        }
    }
}

/// One difficulty tier's entry in a platform's row.
pub struct DifficultyEntry {
    pub difficulty: String,
    pub size: WindowSize,
}

/// One platform's row: its key and its difficulty entries.
pub struct PlatformEntry {
    pub platform: String,
    pub sizes: Vec<DifficultyEntry>,
}

/// The whole two-level size table.
pub struct SizeTable {
    pub platforms: Vec<PlatformEntry>,
}

/// A row holds exactly the three canonical difficulty entries with the
/// given sizes, beginner first.
pub open spec fn row_is(
    e: PlatformEntry,
    key: Seq<char>,
    b: WindowSize,
    i: WindowSize,
    x: WindowSize,
) -> bool {
    &&& e.platform@ == key
    &&& e.sizes@.len() == 3
    &&& e.sizes@[0].difficulty@ == "beginner"@
    &&& e.sizes@[0].size == b
    &&& e.sizes@[1].difficulty@ == "intermediate"@
    &&& e.sizes@[1].size == i
    &&& e.sizes@[2].difficulty@ == "expert"@
    &&& e.sizes@[2].size == x
}

/// The base size of one difficulty within a row whose three canonical
/// sizes are given; an unknown difficulty reads as beginner.
pub open spec fn difficulty_size(
    b: WindowSize,
    i: WindowSize,
    x: WindowSize,
    diff: Seq<char>,
) -> WindowSize {
    if diff == "beginner"@ {
        b
    } else if diff == "intermediate"@ {
        i
    } else if diff == "expert"@ {
        x
    } else {
        b
    }
}

/// The base size the table yields for a platform key and a difficulty
/// label.  A key that is not in the table reads from the windows row.
pub open spec fn table_size_spec(key: Seq<char>, diff: Seq<char>) -> WindowSize {
    if key == "linux"@ {
        difficulty_size(
            (WindowSize { width: 342, height: 450 }),
            (WindowSize { width: 569, height: 680 }),
            (WindowSize { width: 1013, height: 680 }),
            diff,
        )
    } else if key == "macos"@ {
        difficulty_size(
            (WindowSize { width: 362, height: 510 }),
            (WindowSize { width: 619, height: 762 }),
            (WindowSize { width: 1123, height: 762 }),
            diff,
        )
    } else {
        difficulty_size(
            (WindowSize { width: 362, height: 510 }),
            (WindowSize { width: 619, height: 762 }),
            (WindowSize { width: 1123, height: 762 }),
            diff,
        )
    }
}

impl SizeTable {
    /// The table holds exactly the canonical rows: windows, linux and
    /// macos, in that order.
    pub open spec fn is_canonical(self) -> bool {
        &&& self.platforms@.len() == 3
        &&& row_is(
            self.platforms@[0],
            "windows"@,
            (WindowSize { width: 362, height: 510 }),
            (WindowSize { width: 619, height: 762 }),
            (WindowSize { width: 1123, height: 762 }),
        )
        &&& row_is(
            self.platforms@[1],
            "linux"@,
            (WindowSize { width: 342, height: 450 }),
            (WindowSize { width: 569, height: 680 }),
            (WindowSize { width: 1013, height: 680 }),
        )
        &&& row_is(
            self.platforms@[2],
            "macos"@,
            (WindowSize { width: 362, height: 510 }),
            (WindowSize { width: 619, height: 762 }),
            (WindowSize { width: 1123, height: 762 }),
        )
    }

    /// The index of the first row stored under `key`, if any.
    fn find_row(&self, key: &str) -> (r: Option<usize>)
        ensures
            match r {
                Some(i) => i < self.platforms@.len() && self.platforms@[i as int].platform@ == key@
                    && forall|j: int|
                    0 <= j < i ==> (#[trigger] self.platforms@[j].platform@) != key@,
                None => forall|j: int|
                    0 <= j < self.platforms@.len() ==> (#[trigger] self.platforms@[j].platform@)
                        != key@,
            },
    {
        let n = self.platforms.len();
        let mut i: usize = 0;
        while i < n
            invariant
                0 <= i <= n,
                n == self.platforms@.len(),
                forall|j: int| 0 <= j < i ==> (#[trigger] self.platforms@[j].platform@) != key@,
            decreases n - i,
        {
            if str_eq(self.platforms[i].platform.as_str(), key) {
                return Some(i);
            }
            i = i + 1;
        }
        None
    }

    /// The index of the first entry of `sizes` stored under `diff`, if
    /// any.
    fn find_entry(sizes: &Vec<DifficultyEntry>, diff: &str) -> (r: Option<usize>)
        ensures
            match r {
                Some(i) => i < sizes@.len() && sizes@[i as int].difficulty@ == diff@ && forall|
                    j: int,
                |
                    0 <= j < i ==> (#[trigger] sizes@[j].difficulty@) != diff@,
                None => forall|j: int|
                    0 <= j < sizes@.len() ==> (#[trigger] sizes@[j].difficulty@) != diff@,
            },
    {
        let n = sizes.len();
        let mut i: usize = 0;
        while i < n
            invariant
                0 <= i <= n,
                n == sizes@.len(),
                forall|j: int| 0 <= j < i ==> (#[trigger] sizes@[j].difficulty@) != diff@,
            decreases n - i,
        {
            if str_eq(sizes[i].difficulty.as_str(), diff) {
                return Some(i);
            }
            i = i + 1;
        }
        None
    }

    /// Look up the base size for a platform key and a difficulty
    /// label, with the table's two fallbacks: an absent platform key
    /// falls back to the windows row, an absent difficulty to the
    /// row's beginner entry.
    pub fn lookup_size(&self, os_key: &str, difficulty: &str) -> (r: WindowSize)
        requires
            self.is_canonical(),
        ensures
            r == table_size_spec(os_key@, difficulty@),
    {
        proof {
            reveal_strlit("windows");
            reveal_strlit("linux");
            reveal_strlit("macos");
            reveal_strlit("beginner");
            reveal_strlit("intermediate");
            reveal_strlit("expert");
        }
        let row_i: usize = match self.find_row(os_key) {
            Some(i) => i,
            None => {
                match self.find_row("windows") {
                    Some(i) => i,
                    None => {
                        proof {
                            assert(false);
                        }
                        0
                    },
                }
            },
        };
        let row = &self.platforms[row_i];
        proof {
            assert(row_i < 3);
            assert(row.platform@ == key_spec(classify_spec(os_key@)) || (os_key@ != "windows"@
                && os_key@ != "linux"@ && os_key@ != "macos"@ && row.platform@ == "windows"@));
            assert(table_size_spec(os_key@, difficulty@) == difficulty_size(
                row.sizes@[0].size,
                row.sizes@[1].size,
                row.sizes@[2].size,
                difficulty@,
            ));
        }
        match Self::find_entry(&row.sizes, difficulty) {
            Some(j) => row.sizes[j].size,
            None => {
                match Self::find_entry(&row.sizes, "beginner") {
                    Some(j) => row.sizes[j].size,
                    None => {
                        proof {
                            assert(false);
                        }
                        row.sizes[0].size
                    },
                }
            },
        }
    }
}

/// Build the full size table with its canonical contents.
pub fn get_window_sizes() -> (t: SizeTable)
    ensures
        t.is_canonical(),
{
    let mut windows_sizes: Vec<DifficultyEntry> = Vec::new();
    windows_sizes.push(
        DifficultyEntry {
            difficulty: "beginner".to_owned(),
            size: WindowSize { width: 362, height: 510 },
        },
    );
    windows_sizes.push(
        DifficultyEntry {
            difficulty: "intermediate".to_owned(),
            size: WindowSize { width: 619, height: 762 },
        },
    );
    windows_sizes.push(
        DifficultyEntry {
            difficulty: "expert".to_owned(),
            size: WindowSize { width: 1123, height: 762 },
        },
    );

    let mut linux_sizes: Vec<DifficultyEntry> = Vec::new();
    linux_sizes.push(
        DifficultyEntry {
            difficulty: "beginner".to_owned(),
            size: WindowSize { width: 342, height: 450 },
        },
    );
    linux_sizes.push(
        DifficultyEntry {
            difficulty: "intermediate".to_owned(),
            size: WindowSize { width: 569, height: 680 },
        },
    );
    linux_sizes.push(
        DifficultyEntry {
            difficulty: "expert".to_owned(),
            size: WindowSize { width: 1013, height: 680 },
        },
    );

    let mut macos_sizes: Vec<DifficultyEntry> = Vec::new();
    macos_sizes.push(
        DifficultyEntry {
            difficulty: "beginner".to_owned(),
            size: WindowSize { width: 362, height: 510 },
        },
    );
    macos_sizes.push(
        DifficultyEntry {
            difficulty: "intermediate".to_owned(),
            size: WindowSize { width: 619, height: 762 },
        },
    );
    macos_sizes.push(
        DifficultyEntry {
            difficulty: "expert".to_owned(),
            size: WindowSize { width: 1123, height: 762 },
        },
    );

    let mut platforms: Vec<PlatformEntry> = Vec::new();
    platforms.push(PlatformEntry { platform: "windows".to_owned(), sizes: windows_sizes });
    platforms.push(PlatformEntry { platform: "linux".to_owned(), sizes: linux_sizes });
    platforms.push(PlatformEntry { platform: "macos".to_owned(), sizes: macos_sizes });

    SizeTable { platforms }
}

} // verus!
