use vstd::prelude::*;

use crate::event::SearchResult;
use crate::pattern::SearchType;
use crate::text::char_vec;
use crate::utils::{has_prefix, starts_with};
use vstd::utf8::encode_utf8;

verus! {

/// `b` begins with the bytes `p`.
pub open spec fn byte_prefix(b: Seq<u8>, p: Seq<u8>) -> bool {
    p.len() <= b.len() && b.take(p.len() as int) == p
}

/// `b` begins with a byte order mark of UTF-8, UTF-16 or UTF-32.
pub open spec fn starts_with_byte_order_mark(b: Seq<u8>) -> bool {
    byte_prefix(b, seq![0xEFu8, 0xBBu8, 0xBFu8]) || byte_prefix(b, seq![0x00u8, 0x00u8, 0xFEu8, 0xFFu8])
        || byte_prefix(b, seq![0xFFu8, 0xFEu8, 0x00u8, 0x00u8]) || byte_prefix(b, seq![0xFEu8, 0xFFu8])
        || byte_prefix(b, seq![0xFFu8, 0xFEu8])
}

/// Binary content, as sniffed: no byte order mark, and either a zero byte
/// among the first 1024 bytes or the signature of a PDF or PNG file.
pub open spec fn looks_binary(b: Seq<u8>) -> bool {
    &&& !starts_with_byte_order_mark(b)
    &&& ((exists|i: int| 0 <= i < b.len() && i < 1024 && b[i] == 0u8) || byte_prefix(
        b,
        seq![0x25u8, 0x50u8, 0x44u8, 0x46u8],
    ) || byte_prefix(b, seq![0x89u8, 0x50u8, 0x4Eu8, 0x47u8]))
}

/// Whether the line, as UTF-8, looks like binary content.
pub open spec fn line_looks_binary(line: Seq<char>) -> bool {
    looks_binary(encode_utf8(line))
}

/// Relies on `content_inspector::inspect`, which reports binary content
/// exactly as `looks_binary` says.
#[verifier::external_body]
fn sniff_binary(s: &str) -> (r: bool)
    ensures
        r == line_looks_binary(s@),
{
    content_inspector::inspect(s.as_bytes()).is_binary()
}

/// Whether a line looks like binary content: no byte order mark, and a zero
/// byte among its first 1024 bytes or the signature of a PDF or PNG file.
pub fn is_binary_line(line: &str) -> (r: bool)
    ensures
        r == line_looks_binary(line@),
{
    sniff_binary(line)
}

/// The position of the last `c` in `s`, or -1.
pub open spec fn last_index_of(s: Seq<char>, c: char) -> int
    decreases s.len(),
{
    if s.len() == 0 {
        -1
    } else if s.last() == c {
        s.len() - 1
    } else {
        last_index_of(s.drop_last(), c)
    }
}

/// The last component of a path written with `/`.
pub open spec fn file_name(path: Seq<char>) -> Seq<char> {
    path.skip(last_index_of(path, '/') + 1)
}

/// The extension of a file name: what follows its last dot, unless the name
/// has no dot or its only dot begins it.
pub open spec fn extension(name: Seq<char>) -> Option<Seq<char>> {
    if last_index_of(name, '.') > 0 {
        Some(name.skip(last_index_of(name, '.') + 1))
    } else {
        None
    }
}

/// The code of `c` with ASCII capitals taken as small letters.
pub open spec fn fold_ascii(c: char) -> u32 {
    if 'A' as u32 <= c as u32 <= 'Z' as u32 {
        (c as u32 + 32) as u32
    } else {
        c as u32
    }
}

/// `a` and `b` are equal but for the case of ASCII letters.
pub open spec fn eq_ignoring_ascii_case(a: Seq<char>, b: Seq<char>) -> bool {
    a.len() == b.len() && forall|i: int| 0 <= i < a.len() ==> fold_ascii(a[i]) == fold_ascii(b[i])
}

/// The extension is one of a known binary format, in any ASCII case.
pub open spec fn is_binary_extension(ext: Seq<char>) -> bool {
    eq_ignoring_ascii_case(ext, "png"@) || eq_ignoring_ascii_case(ext, "gif"@)
        || eq_ignoring_ascii_case(ext, "jpg"@) || eq_ignoring_ascii_case(ext, "jpeg"@)
        || eq_ignoring_ascii_case(ext, "ico"@) || eq_ignoring_ascii_case(ext, "svg"@)
        || eq_ignoring_ascii_case(ext, "pdf"@)
}

/// A file that the search skips by its name alone.
pub open spec fn ignored_by_name(path: Seq<char>) -> bool {
    extension(file_name(path)) matches Some(ext) && is_binary_extension(ext)
}

fn fold_ascii_exec(c: char) -> (r: u32)
    ensures
        r == fold_ascii(c),
{
    let v = c as u32;
    if 'A' as u32 <= v && v <= 'Z' as u32 {
        v + 32
    } else {
        v
    }
}

fn eq_ignoring_ascii_case_exec(a: &Vec<char>, b: &str) -> (r: bool)
    ensures
        r == eq_ignoring_ascii_case(a@, b@),
{
    let bv = char_vec(b);
    if a.len() != bv.len() {
        return false;
    }
    let mut i: usize = 0;
    while i < a.len()
        invariant
            a.len() == bv.len(),
            bv@ == b@,
            i <= a.len(),
            forall|k: int| 0 <= k < i ==> fold_ascii(a@[k]) == fold_ascii(b@[k]),
        decreases a.len() - i,
    {
        if fold_ascii_exec(a[i]) != fold_ascii_exec(bv[i]) {
            return false;
        }
        i += 1;
    }
    true
}

fn last_index_exec(s: &Vec<char>, c: char) -> (r: Option<usize>)
    ensures
        r matches Some(i) ==> last_index_of(s@, c) == i && i < s.len(),
        r is None ==> last_index_of(s@, c) == -1,
{
    let mut i: usize = s.len();
    assert(s@.take(s.len() as int) =~= s@);
    while i > 0
        invariant
            i <= s.len(),
            last_index_of(s@, c) == last_index_of(s@.take(i as int), c),
        decreases i,
    {
        assert(s@.take(i as int).drop_last() =~= s@.take(i - 1));
        if s[i - 1] == c {
            return Some(i - 1);
        }
        i -= 1;
    }
    None
}

/// Whether the search skips the file at `path` by its name: its extension is
/// that of a known binary format (png, gif, jpg, jpeg, ico, svg, pdf), in any
/// ASCII case.
pub fn ignore_file(path: &str) -> (r: bool)
    ensures
        r == ignored_by_name(path@),
{
    let p = char_vec(path);
    assert(p@.take(p.len() as int) =~= p@);
    let start: usize = match last_index_exec(&p, '/') {
        Some(i) => i + 1,
        None => 0,
    };
    let mut name: Vec<char> = Vec::new();
    let mut i: usize = start;
    while i < p.len()
        invariant
            start <= i <= p.len(),
            name@ == p@.subrange(start as int, i as int),
        decreases p.len() - i,
    {
        name.push(p[i]);
        i += 1;
        assert(name@ =~= p@.subrange(start as int, i as int));
    }
    assert(name@ =~= file_name(path@));
    assert(name@.take(name.len() as int) =~= name@);
    match last_index_exec(&name, '.') {
        Some(d) => {
            if d == 0 {
                return false;
            }
            let mut ext: Vec<char> = Vec::new();
            let mut j: usize = d + 1;
            while j < name.len()
                invariant
                    d + 1 <= j <= name.len(),
                    ext@ == name@.subrange(d + 1, j as int),
                decreases name.len() - j,
            {
                ext.push(name[j]);
                j += 1;
                assert(ext@ =~= name@.subrange(d + 1, j as int));
            }
            assert(ext@ =~= name@.skip(d + 1));
            eq_ignoring_ascii_case_exec(&ext, "png") || eq_ignoring_ascii_case_exec(&ext, "gif")
                || eq_ignoring_ascii_case_exec(&ext, "jpg") || eq_ignoring_ascii_case_exec(&ext, "jpeg")
                || eq_ignoring_ascii_case_exec(&ext, "ico") || eq_ignoring_ascii_case_exec(&ext, "svg")
                || eq_ignoring_ascii_case_exec(&ext, "pdf")
        },
        None => false,
    }
}

/// `path` relative to `root`: with the prefix `root` and the separator after
/// it taken off; a path outside `root` stays as it is.
pub open spec fn relative_path(root: Seq<char>, path: Seq<char>) -> Seq<char> {
    if has_prefix(path, root) {
        let rest = path.skip(root.len() as int);
        if rest.len() > 0 && rest[0] == '/' {
            rest.skip(1)
        } else {
            rest
        }
    } else {
        path
    }
}

/// `path` relative to `root`, with forward slashes as `path` has them.
pub fn relative_path_from(root: &str, path: &str) -> (r: String)
    ensures
        r@ == relative_path(root@, path@),
{
    if !starts_with(path, root) {
        return String::from_str(path);
    }
    let n = path.unicode_len();
    let mut from = root.unicode_len();
    if from < n && path.get_char(from) == '/' {
        from += 1;
    }
    let r = String::from_str(path.substring_char(from, n));
    assert(r@ =~= relative_path(root@, path@));
    r
}

/// A validated search: the compiled patterns, the replacement, and where to
/// search.
#[derive(Debug)]
pub struct ParsedFields {
    pub search_pattern: SearchType,
    pub replace_string: String,
    pub path_pattern: Option<SearchType>,
    pub root_dir: String,
    pub include_hidden: bool,
}

/// The matching lines among the first `n` of `lines`: each as its position
/// and the line it would become.
pub open spec fn line_hits(p: &ParsedFields, lines: Seq<String>, n: int) -> Seq<(int, Seq<char>)>
    decreases n,
{
    if n <= 0 {
        seq![]
    } else {
        let prev = line_hits(p, lines, n - 1);
        match p.search_pattern.replacement_for(lines[n - 1]@, p.replace_string@) {
            Some(rep) => prev.push((n - 1, rep)),
            None => prev,
        }
    }
}

/// `rs` are the matches `hits` in the file at `path` with lines `lines`,
/// each included and not yet replaced.
pub open spec fn reports_hits(rs: Seq<SearchResult>, path: Seq<char>, lines: Seq<String>, hits: Seq<(int, Seq<char>)>) -> bool {
    &&& rs.len() == hits.len()
    &&& forall|j: int|
        0 <= j < rs.len() ==> {
            let r = #[trigger] rs[j];
            &&& r.path@ == path
            &&& r.line_number == hits[j].0 + 1
            &&& r.line == lines[hits[j].0]
            &&& r.replacement@ == hits[j].1
            &&& r.included
            &&& r.replace_result is None
        }
}

impl ParsedFields {
    pub fn new(
        search_pattern: SearchType,
        replace_string: String,
        path_pattern: Option<SearchType>,
        root_dir: String,
        include_hidden: bool,
    ) -> (r: ParsedFields)
        ensures
            r == (ParsedFields { search_pattern, replace_string, path_pattern, root_dir, include_hidden }),
    {
        ParsedFields { search_pattern, replace_string, path_pattern, root_dir, include_hidden }
    }

    /// The search looks into the file at `path`: its name is not that of a
    /// binary format, and the path filter, if any, matches its path relative
    /// to the root.
    pub open spec fn selects(&self, path: Seq<char>) -> bool {
        &&& !ignored_by_name(path)
        &&& match self.path_pattern {
            None => true,
            Some(p) => p.finds(relative_path(self.root_dir@, path)) == Some(true),
        }
    }

    /// Whether the search looks into the file at `path`.
    pub fn path_selected(&self, path: &str) -> (r: bool)
        ensures
            r == self.selects(path@),
    {
        if ignore_file(path) {
            return false;
        }
        match &self.path_pattern {
            None => true,
            Some(p) => {
                let relative = relative_path_from(self.root_dir.as_str(), path);
                match p.is_match(relative.as_str()) {
                    Some(b) => b,
                    None => false,
                }
            },
        }
    }

    /// The match for line `line_number` (counted from 0) of the file at
    /// `path`, if the search pattern occurs in it.
    pub fn replacement_if_match(&self, path: &str, line: &String, line_number: usize) -> (r: Option<SearchResult>)
        requires
            line_number < usize::MAX,
        ensures
            r is Some <==> self.search_pattern.replacement_for(line@, self.replace_string@) is Some,
            r matches Some(res) ==> {
                &&& res.path@ == path@
                &&& res.line_number == line_number + 1
                &&& res.line == *line
                &&& Some(res.replacement@) == self.search_pattern.replacement_for(line@, self.replace_string@)
                &&& res.included
                &&& res.replace_result is None
            },
    {
        match self.search_pattern.replacement_if_match(line.as_str(), self.replace_string.as_str()) {
            Some(replacement) => Some(
                SearchResult {
                    path: String::from_str(path),
                    line_number: line_number + 1,
                    line: line.clone(),
                    replacement,
                    included: true,
                    replace_result: None,
                },
            ),
            None => None,
        }
    }

    /// The matches in the file at `path` whose lines are `lines`. A file that
    /// the search does not select gives none; otherwise the lines are read up
    /// to the first that looks binary, and each of them in which the pattern
    /// occurs gives one match, in order.
    pub fn scan_file(&self, path: &str, lines: &Vec<String>) -> (r: Vec<SearchResult>)
        ensures
            !self.selects(path@) ==> r.len() == 0,
            ignored_by_name(path@) ==> r.len() == 0,
            lines.len() > 0 && line_looks_binary(lines@[0]@) ==> r.len() == 0,
            self.selects(path@) ==> exists|stop: int|
                0 <= stop <= lines.len() && (forall|i: int| 0 <= i < stop ==> !line_looks_binary(#[trigger] lines@[i]@))
                    && (stop == lines.len() || line_looks_binary(lines@[stop]@))
                    && reports_hits(r@, path@, lines@, line_hits(self, lines@, stop)),
    {
        let mut out: Vec<SearchResult> = Vec::new();
        if !self.path_selected(path) {
            return out;
        }
        let n = lines.len();
        let mut i: usize = 0;
        while i < n
            invariant
                n == lines.len(),
                i <= n,
                self.selects(path@),
                forall|k: int| 0 <= k < i ==> !line_looks_binary(#[trigger] lines@[k]@),
                reports_hits(out@, path@, lines@, line_hits(self, lines@, i as int)),
            decreases n - i,
        {
            if is_binary_line(lines[i].as_str()) {
                assert(line_hits(self, lines@, 0) =~= seq![]);
                return out;
            }
            match self.replacement_if_match(path, &lines[i], i) {
                Some(res) => {
                    out.push(res);
                },
                None => {},
            }
            i += 1;
        }
        out
    }
}

} // verus!
