//! Reading the listings and counts that the remote host reports about the
//! music library.

use vstd::prelude::*;

use crate::job::string_views;
use crate::models::{CategoryStat, LibraryFile, LibraryStats};
use crate::text::{
    chars_of, decimal, push_decimal, lines, parse_u64, parse_u64_chars, parse_usize, parse_usize_chars, slice_chars,
    split_lines, split_whitespace_chars, split_ws, starts_with, starts_with_chars, string_of, trim,
    trim_chars, views,
};

verus! {

/// `path` relative to the library root `root` (unchanged when it is not
/// under `root`).
pub open spec fn relative_to(path: Seq<char>, root: Seq<char>) -> Seq<char> {
    let prefix = root + "/"@;
    if starts_with(path, prefix) {
        path.skip(prefix.len() as int)
    } else {
        path
    }
}

/// Strips the library root from a path.
pub fn relative_path(path: &str, root: &str) -> (r: String)
    ensures
        r@ == relative_to(path@, root@),
{
    let mut prefix = String::from_str(root);
    prefix.append("/");
    let p = chars_of(path);
    let pre = chars_of(prefix.as_str());
    if starts_with_chars(&p, &pre) {
        let rest = slice_chars(&p, pre.len(), p.len());
        assert(rest@ == p@.skip(pre@.len() as int));
        string_of(&rest)
    } else {
        String::from_str(path)
    }
}

/// The non-empty lines of a text, in order.
pub open spec fn nonempty_lines_of(ls: Seq<Seq<char>>) -> Seq<Seq<char>>
    decreases ls.len(),
{
    if ls.len() == 0 {
        seq![]
    } else {
        let rest = nonempty_lines_of(ls.drop_last());
        if ls.last().len() > 0 {
            rest.push(ls.last())
        } else {
            rest
        }
    }
}

/// The non-empty lines of a command's output.
pub fn nonempty_lines(out: &str) -> (r: Vec<String>)
    ensures
        string_views(r@) == nonempty_lines_of(lines(out@)),
{
    let ls = split_lines(&chars_of(out));
    let ghost v = views(ls@);
    let mut r: Vec<String> = Vec::new();
    let mut i: usize = 0;
    assert(v.take(0) == Seq::<Seq<char>>::empty());
    assert(string_views(r@) =~= Seq::<Seq<char>>::empty());
    while i < ls.len()
        invariant
            i <= ls.len(),
            v == views(ls@),
            string_views(r@) == nonempty_lines_of(v.take(i as int)),
        decreases ls.len() - i,
    {
        assert(v.take(i + 1).drop_last() == v.take(i as int));
        assert(v.take(i + 1).last() == ls@[i as int]@);
        if ls[i].len() > 0 {
            let ghost prev = r@;
            r.push(string_of(&ls[i]));
            assert(string_views(r@) =~= string_views(prev).push(ls@[i as int]@));
        }
        i = i + 1;
    }
    assert(v.take(ls.len() as int) == v);
    r
}

/// The library files named, one per line, by a `find` listing: each with
/// its path relative to `root`, and no size or date.
pub fn library_files(listing: &str, root: &str) -> (r: Vec<LibraryFile>)
    ensures
        r@.len() == nonempty_lines_of(lines(listing@)).len(),
        forall|i: int|
            0 <= i < r@.len() ==> {
                let p = #[trigger] nonempty_lines_of(lines(listing@))[i];
                &&& r@[i].path@ == p
                &&& r@[i].relative_path@ == relative_to(p, root@)
                &&& r@[i].size_bytes == 0
                &&& r@[i].modified@ == Seq::<char>::empty()
            },
{
    let paths = nonempty_lines(listing);
    let mut r: Vec<LibraryFile> = Vec::new();
    let mut i: usize = 0;
    while i < paths.len()
        invariant
            i <= paths.len(),
            string_views(paths@) == nonempty_lines_of(lines(listing@)),
            r@.len() == i,
            forall|k: int|
                0 <= k < i ==> {
                    let p = #[trigger] paths@[k]@;
                    &&& r@[k].path@ == p
                    &&& r@[k].relative_path@ == relative_to(p, root@)
                    &&& r@[k].size_bytes == 0
                    &&& r@[k].modified@ == Seq::<char>::empty()
                },
        decreases paths.len() - i,
    {
        let path = &paths[i];
        r.push(
            LibraryFile {
                path: path.clone(),
                relative_path: relative_path(path.as_str(), root),
                size_bytes: 0,
                modified: String::new(),
            },
        );
        i = i + 1;
    }
    assert forall|k: int| 0 <= k < r@.len() implies #[trigger] nonempty_lines_of(lines(listing@))[k]
        == paths@[k]@ by {
        assert(string_views(paths@)[k] == paths@[k]@);
    }
    r
}

/// A count printed on a line of its own (0 when the line is missing or
/// not a number).
pub open spec fn count_on_line(ls: Seq<Seq<char>>, i: int) -> usize {
    if 0 <= i < ls.len() {
        match parse_usize(trim(ls[i])) {
            Some(n) => n,
            None => 0,
        }
    } else {
        0
    }
}

/// A size printed on a line of its own (0 when missing or not a number).
pub open spec fn size_on_line(ls: Seq<Seq<char>>, i: int) -> u64 {
    if 0 <= i < ls.len() {
        match parse_u64(trim(ls[i])) {
            Some(n) => n,
            None => 0,
        }
    } else {
        0
    }
}

/// The statistics of one category from the output of `find | wc -l; du -sm`:
/// the file count on the first line, the size in MB on the second.
pub fn category_stat(name: &str, out: &str) -> (c: CategoryStat)
    ensures
        c.name@ == name@,
        c.file_count == count_on_line(lines(out@), 0),
        c.size_mb == size_on_line(lines(out@), 1),
{
    let ls = split_lines(&chars_of(out));
    let ghost v = views(ls@);
    let count: usize = if ls.len() > 0 {
        assert(v[0] == ls@[0]@);
        match parse_usize_chars(&trim_chars(&ls[0])) {
            Some(n) => n,
            None => 0,
        }
    } else {
        0
    };
    let size: u64 = if ls.len() > 1 {
        assert(v[1] == ls@[1]@);
        match parse_u64_chars(&trim_chars(&ls[1])) {
            Some(n) => n,
            None => 0,
        }
    } else {
        0
    };
    CategoryStat { name: String::from_str(name), file_count: count, size_mb: size }
}

/// An empty category (its listing could not be read).
pub fn empty_category_stat(name: &str) -> (c: CategoryStat)
    ensures
        c.name@ == name@,
        c.file_count == 0,
        c.size_mb == 0,
{
    CategoryStat { name: String::from_str(name), file_count: 0, size_mb: 0 }
}

/// A count printed by `wc -l` (0 when it is not a number).
pub fn count_from_output(out: &str) -> (n: usize)
    ensures
        n == match parse_usize(trim(out@)) {
            Some(v) => v,
            None => 0,
        },
{
    match parse_usize_chars(&trim_chars(&chars_of(out))) {
        Some(v) => v,
        None => 0,
    }
}

/// Total file count over categories.
pub open spec fn sum_files(c: Seq<CategoryStat>) -> int
    decreases c.len(),
{
    if c.len() == 0 {
        0
    } else {
        sum_files(c.drop_last()) + c.last().file_count
    }
}

/// Total size over categories.
pub open spec fn sum_size(c: Seq<CategoryStat>) -> int
    decreases c.len(),
{
    if c.len() == 0 {
        0
    } else {
        sum_size(c.drop_last()) + c.last().size_mb
    }
}

/// Category sums over a prefix are at most those over the whole list.
proof fn lemma_category_sums_prefix(c: Seq<CategoryStat>, n: int)
    requires
        0 <= n <= c.len(),
    ensures
        0 <= sum_files(c.take(n)) <= sum_files(c),
        0 <= sum_size(c.take(n)) <= sum_size(c),
    decreases c.len(),
{
    if n < c.len() {
        assert(c.drop_last().take(n) == c.take(n));
        lemma_category_sums_prefix(c.drop_last(), n);
    } else {
        assert(c.take(n) == c);
        lemma_category_sums_nonneg(c);
    }
}

/// Category sums are never negative.
proof fn lemma_category_sums_nonneg(c: Seq<CategoryStat>)
    ensures
        0 <= sum_files(c),
        0 <= sum_size(c),
    decreases c.len(),
{
    if c.len() > 0 {
        lemma_category_sums_nonneg(c.drop_last());
    }
}

/// Library statistics from per-category counts and the artist and album
/// directory counts; `None` when a total does not fit its integer type.
pub fn library_stats(by_category: Vec<CategoryStat>, total_artists: usize, total_albums: usize) -> (r:
    Option<LibraryStats>)
    ensures
        r is Some <==> (sum_files(by_category@) <= usize::MAX && sum_size(by_category@)
            <= u64::MAX),
        r matches Some(s) ==> s.total_files == sum_files(by_category@) && s.total_size_mb
            == sum_size(by_category@) && s.total_artists == total_artists && s.total_albums
            == total_albums && s.by_category@ == by_category@,
{
    let mut files: usize = 0;
    let mut size: u64 = 0;
    let mut i: usize = 0;
    assert(by_category@.take(0) == Seq::<CategoryStat>::empty());
    while i < by_category.len()
        invariant
            i <= by_category.len(),
            files == sum_files(by_category@.take(i as int)),
            size == sum_size(by_category@.take(i as int)),
        decreases by_category.len() - i,
    {
        proof {
            assert(by_category@.take(i + 1).drop_last() == by_category@.take(i as int));
            lemma_category_sums_prefix(by_category@, i + 1);
        }
        match (files.checked_add(by_category[i].file_count), size.checked_add(by_category[i].size_mb)) {
            (Some(f), Some(s)) => {
                files = f;
                size = s;
            },
            _ => {
                return None;
            },
        }
        i = i + 1;
    }
    assert(by_category@.take(by_category.len() as int) == by_category@);
    Some(
        LibraryStats {
            total_files: files,
            total_artists,
            total_albums,
            total_size_mb: size,
            by_category,
        },
    )
}

/// Words joined by single spaces.
pub open spec fn join_words(w: Seq<Seq<char>>) -> Seq<char>
    decreases w.len(),
{
    if w.len() == 0 {
        seq![]
    } else if w.len() == 1 {
        w[0]
    } else {
        join_words(w.drop_last()) + " "@ + w.last()
    }
}

/// The details of a file from the output of `ls -l ... | awk '{print $5, $6}'`:
/// the size is the first word (0 when it is not a number), the
/// modification time the other words.
pub fn file_info(remote_path: &str, ls_output: &str, root: &str) -> (f: LibraryFile)
    ensures
        f.path@ == remote_path@,
        f.relative_path@ == relative_to(remote_path@, root@),
        f.size_bytes == (if split_ws(trim(ls_output@)).len() > 0 {
            match parse_u64(split_ws(trim(ls_output@))[0]) {
                Some(n) => n,
                None => 0,
            }
        } else {
            0
        }),
        f.modified@ == (if split_ws(trim(ls_output@)).len() > 0 {
            join_words(split_ws(trim(ls_output@)).drop_first())
        } else {
            Seq::<char>::empty()
        }),
{
    let parts = split_whitespace_chars(&trim_chars(&chars_of(ls_output)));
    let ghost w = views(parts@);
    let size: u64 = if parts.len() > 0 {
        assert(w[0] == parts@[0]@);
        match parse_u64_chars(&parts[0]) {
            Some(n) => n,
            None => 0,
        }
    } else {
        0
    };
    let mut modified = String::new();
    if parts.len() > 0 {
        let mut k: usize = 1;
        assert(w.drop_first().take(0) == Seq::<Seq<char>>::empty());
        while k < parts.len()
            invariant
                1 <= k <= parts.len(),
                w == views(parts@),
                modified@ == join_words(w.drop_first().take(k - 1)),
            decreases parts.len() - k,
        {
            let ghost t = w.drop_first().take(k as int);
            assert(t.drop_last() == w.drop_first().take(k - 1));
            assert(t.last() == parts@[k as int]@);
            if k > 1 {
                modified.append(" ");
            } else {
                assert(t.len() == 1 && t[0] == parts@[1]@);
                assert(modified@ == Seq::<char>::empty());
            }
            let word = string_of(&parts[k]);
            let ghost before = modified@;
            modified.append(word.as_str());
            proof {
                if k == 1 {
                    assert(modified@ == before + parts@[1]@);
                }
            }
            k = k + 1;
        }
        assert(w.drop_first().take(parts.len() - 1) == w.drop_first());
    }
    LibraryFile {
        path: String::from_str(remote_path),
        relative_path: relative_path(remote_path, root),
        size_bytes: size,
        modified,
    }
}

/// The command that would reveal a file on the remote host (no GUI can be
/// opened from here).
pub fn reveal_file(remote_path: &str) -> (r: String)
    ensures
        r@ == "On the remote host: xdg-open '"@ + remote_path@ + "' || open '"@ + remote_path@
            + "'"@,
{
    let mut r = String::from_str("On the remote host: xdg-open '");
    r.append(remote_path);
    r.append("' || open '");
    r.append(remote_path);
    r.append("'");
    r
}

/// The command that would play a file on the remote host.
pub fn play_file(remote_path: &str) -> (r: String)
    ensures
        r@ == "On the remote host: mpv '"@ + remote_path@ + "' || vlc '"@ + remote_path@
            + "' || ffplay '"@ + remote_path@ + "'"@,
{
    let mut r = String::from_str("On the remote host: mpv '");
    r.append(remote_path);
    r.append("' || vlc '");
    r.append(remote_path);
    r.append("' || ffplay '");
    r.append(remote_path);
    r.append("'");
    r
}

// ---------------------------------------------------------------------
// Library commands
// ---------------------------------------------------------------------

/// The directory listed by the library browser: the library root, or the
/// given sub-directory of it.
pub fn library_base(output_path: &str, subdir: Option<&str>) -> (r: String)
    ensures
        r@ == match subdir {
            Some(s) => output_path@ + "/"@ + s@,
            None => output_path@,
        },
{
    let mut r = String::from_str(output_path);
    match subdir {
        Some(s) => {
            r.append("/");
            r.append(s);
        },
        None => {},
    }
    r
}

/// The library's category directories, in the order they are reported.
pub fn category_names() -> (r: Vec<&'static str>)
    ensures
        r@.len() == 4,
        r@[0]@ == "playlists"@,
        r@[1]@ == "albums"@,
        r@[2]@ == "artists"@,
        r@[3]@ == "tracks"@,
{
    let mut r: Vec<&'static str> = Vec::new();
    r.push("playlists");
    r.push("albums");
    r.push("artists");
    r.push("tracks");
    r
}

/// The command that prints the file count (first line) and the size in MB
/// (second line) of a category directory.
pub fn category_stats_command(path: &str) -> (r: String)
    ensures
        r@ == "find '"@ + path@ + "' -maxdepth 3 -type f 2>/dev/null | wc -l; du -sm '"@ + path@
            + "' 2>/dev/null | awk '{print $1}'"@,
{
    let mut r = String::from_str("find '");
    r.append(path);
    r.append("' -maxdepth 3 -type f 2>/dev/null | wc -l; du -sm '");
    r.append(path);
    r.append("' 2>/dev/null | awk '{print $1}'");
    r
}

/// The command that counts the artist directories.
pub fn artist_count_command(output_path: &str) -> (r: String)
    ensures
        r@ == "find '"@ + output_path@ + "/artists' -maxdepth 1 -mindepth 1 -type d 2>/dev/null | wc -l"@,
{
    let mut r = String::from_str("find '");
    r.append(output_path);
    r.append("/artists' -maxdepth 1 -mindepth 1 -type d 2>/dev/null | wc -l");
    r
}

/// The command that counts the album-level directories.
pub fn album_count_command(output_path: &str) -> (r: String)
    ensures
        r@ == "find '"@ + output_path@ + "' -mindepth 2 -maxdepth 3 -type d 2>/dev/null | wc -l"@,
{
    let mut r = String::from_str("find '");
    r.append(output_path);
    r.append("' -mindepth 2 -maxdepth 3 -type d 2>/dev/null | wc -l");
    r
}

/// The command that prints the size and modification time of a file.
pub fn file_info_command(remote_path: &str) -> (r: String)
    ensures
        r@ == "ls -l --time-style=+'%Y-%m-%d %H:%M:%S' '"@ + remote_path@
            + "' | awk '{print $5, $6}'"@,
{
    let mut r = String::from_str("ls -l --time-style=+'%Y-%m-%d %H:%M:%S' '");
    r.append(remote_path);
    r.append("' | awk '{print $5, $6}'");
    r
}

/// The command that lists the files changed in the last `hours` hours.
pub fn recent_files_command(output_path: &str, hours: u64) -> (r: String)
    requires
        hours * 60 <= u64::MAX,
    ensures
        r@ == "find '"@ + output_path@ + "' -type f -mmin -"@ + decimal((hours * 60) as nat)
            + " -print 2>/dev/null | sort"@,
{
    let mut r = String::from_str("find '");
    r.append(output_path);
    r.append("' -type f -mmin -");
    push_decimal(&mut r, hours * 60);
    r.append(" -print 2>/dev/null | sort");
    r
}

/// The command that lists the entries of the library root.
pub fn list_categories_command(output_path: &str) -> (r: String)
    ensures
        r@ == "ls -1 '"@ + output_path@ + "' 2>/dev/null | sort"@,
{
    let mut r = String::from_str("ls -1 '");
    r.append(output_path);
    r.append("' 2>/dev/null | sort");
    r
}

/// The command that lists the directories of a category, two levels deep.
pub fn list_subdirs_command(output_path: &str, category: &str) -> (r: String)
    ensures
        r@ == "find '"@ + output_path@ + "/"@ + category@
            + "' -maxdepth 2 -mindepth 1 -type d 2>/dev/null | sort"@,
{
    let mut r = String::from_str("find '");
    r.append(output_path);
    r.append("/");
    r.append(category);
    r.append("' -maxdepth 2 -mindepth 1 -type d 2>/dev/null | sort");
    r
}

} // verus!
