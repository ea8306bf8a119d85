//! Equality of Unix paths by their components, as `std::path::Path`
//! compares them: repeated separators, a trailing separator and `.` past the
//! start do not count.
use vstd::prelude::*;
use vstd::string::*;

verus! {

/// A completed piece counts unless it is empty or `.`.
pub open spec fn flush(done: Seq<Seq<char>>, cur: Seq<char>) -> Seq<Seq<char>> {
    if cur.len() > 0 && cur != seq!['.'] {
        done.push(cur)
    } else {
        done
    }
}

/// Scanning the path left to right: the named components completed so far
/// and the piece being read.
pub open spec fn scan(s: Seq<char>) -> (Seq<Seq<char>>, Seq<char>)
    decreases s.len(),
{
    if s.len() == 0 {
        (seq![], seq![])
    } else {
        let (done, cur) = scan(s.drop_last());
        if s.last() == '/' {
            (flush(done, cur), seq![])
        } else {
            (done, cur.push(s.last()))
        }
    }
}

/// The named components of the path (normal names and `..`), in order.
pub open spec fn path_names(s: Seq<char>) -> Seq<Seq<char>> {
    flush(scan(s).0, scan(s).1)
}

/// The path starts at the root.
pub open spec fn has_root(s: Seq<char>) -> bool {
    s.len() > 0 && s[0] == '/'
}

/// The path starts with a `.` component, which is kept only at the start of a
/// relative path.
pub open spec fn has_leading_cur_dir(s: Seq<char>) -> bool {
    &&& !has_root(s)
    &&& s.len() > 0
    &&& s[0] == '.'
    &&& (s.len() == 1 || s[1] == '/')
}

/// The two paths have the same components.
pub open spec fn same_path(a: Seq<char>, b: Seq<char>) -> bool {
    &&& has_root(a) == has_root(b)
    &&& has_leading_cur_dir(a) == has_leading_cur_dir(b)
    &&& path_names(a) == path_names(b)
}

pub open spec fn char_views(v: Seq<Vec<char>>) -> Seq<Seq<char>> {
    v.map_values(|x: Vec<char>| x@)
}

fn is_dot_piece(cur: &Vec<char>) -> (r: bool)
    ensures
        r == (cur@ == seq!['.']),
{
    if cur.len() == 1 && cur[0] == '.' {
        proof {
            assert(cur@ =~= seq!['.']);
        }
        true
    } else {
        false
    }
}

fn flush_exec(done: &mut Vec<Vec<char>>, cur: Vec<char>)
    ensures
        char_views(final(done)@) == flush(char_views(old(done)@), cur@),
{
    if cur.len() > 0 && !is_dot_piece(&cur) {
        let ghost before = done@;
        done.push(cur);
        proof {
            assert(char_views(done@) =~= char_views(before).push(cur@));
        }
    }
}

/// The named components of a path.
pub fn path_names_exec(s: &str) -> (r: Vec<Vec<char>>)
    ensures
        char_views(r@) == path_names(s@),
{
    let n = s.unicode_len();
    let mut done: Vec<Vec<char>> = Vec::new();
    let mut cur: Vec<char> = Vec::new();
    let mut i: usize = 0;
    proof {
        assert(s@.take(0) =~= Seq::<char>::empty());
        assert(char_views(done@) =~= Seq::<Seq<char>>::empty());
    }
    while i < n
        invariant
            n == s@.len(),
            0 <= i <= n,
            (char_views(done@), cur@) == scan(s@.take(i as int)),
        decreases n - i,
    {
        let c = s.get_char(i);
        proof {
            assert(s@.take(i + 1).drop_last() =~= s@.take(i as int));
            assert(s@.take(i + 1).last() == c);
        }
        if c == '/' {
            let piece = cur;
            cur = Vec::new();
            flush_exec(&mut done, piece);
        } else {
            cur.push(c);
        }
        i = i + 1;
    }
    proof {
        assert(s@.take(n as int) =~= s@);
    }
    flush_exec(&mut done, cur);
    done
}

fn chars_equal(a: &Vec<char>, b: &Vec<char>) -> (r: bool)
    ensures
        r == (a@ == b@),
{
    if a.len() != b.len() {
        return false;
    }
    let mut i: usize = 0;
    while i < a.len()
        invariant
            a@.len() == b@.len(),
            0 <= i <= a@.len(),
            forall|j: int| 0 <= j < i ==> a@[j] == b@[j],
        decreases a@.len() - i,
    {
        if a[i] != b[i] {
            return false;
        }
        i = i + 1;
    }
    proof {
        assert(a@ =~= b@);
    }
    true
}

fn names_equal(a: &Vec<Vec<char>>, b: &Vec<Vec<char>>) -> (r: bool)
    ensures
        r == (char_views(a@) == char_views(b@)),
{
    if a.len() != b.len() {
        proof {
            assert(char_views(a@).len() != char_views(b@).len());
        }
        return false;
    }
    let mut i: usize = 0;
    while i < a.len()
        invariant
            a@.len() == b@.len(),
            0 <= i <= a@.len(),
            forall|j: int| 0 <= j < i ==> a@[j]@ == b@[j]@,
        decreases a@.len() - i,
    {
        if !chars_equal(&a[i], &b[i]) {
            proof {
                assert(char_views(a@)[i as int] != char_views(b@)[i as int]);
            }
            return false;
        }
        i = i + 1;
    }
    proof {
        assert(char_views(a@) =~= char_views(b@));
    }
    true
}

fn has_root_exec(s: &str) -> (r: bool)
    ensures
        r == has_root(s@),
{
    s.unicode_len() > 0 && s.get_char(0) == '/'
}

fn has_leading_cur_dir_exec(s: &str) -> (r: bool)
    ensures
        r == has_leading_cur_dir(s@),
{
    let n = s.unicode_len();
    !has_root_exec(s) && n > 0 && s.get_char(0) == '.' && (n == 1 || s.get_char(1) == '/')
}

/// Whether two paths have the same components.
pub fn paths_equal(a: &str, b: &str) -> (r: bool)
    ensures
        r == same_path(a@, b@),
{
    if has_root_exec(a) != has_root_exec(b) {
        return false;
    }
    if has_leading_cur_dir_exec(a) != has_leading_cur_dir_exec(b) {
        return false;
    }
    let na = path_names_exec(a);
    let nb = path_names_exec(b);
    names_equal(&na, &nb)
}

} // verus!
