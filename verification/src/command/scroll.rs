use vstd::prelude::*;

verus! {

/// A move of the scroll, in lines or in pages
#[derive(Debug, Clone, Copy, PartialEq, Eq, Structural)]
pub enum ScrollCommand {
    Lines(i32),
    Pages(i32),
}

/// The count of lines of a scroll command (the page height is converted
/// to an `i32` with truncation, as `as` does).
pub open spec fn scroll_lines(cmd: ScrollCommand, page_height: usize) -> int {
    match cmd {
        ScrollCommand::Lines(n) => n as int,
        ScrollCommand::Pages(n) => n * (#[verifier::truncate] (page_height as i32)),
    }
}

/// The new scroll value: the moved scroll, at most the last scroll that
/// still shows a full page (`content_height - page_height + 1`), at least 0.
pub open spec fn applied_scroll(cmd: ScrollCommand, scroll: usize, content_height: usize, page_height: usize) -> int {
    let moved = (#[verifier::truncate] (scroll as i32)) + scroll_lines(cmd, page_height);
    let max = (#[verifier::truncate] (content_height as i32))
        - (#[verifier::truncate] (page_height as i32)) + 1;
    let bounded = if moved < max { moved } else { max };
    if bounded > 0 { bounded } else { 0 }
}

impl ScrollCommand {
    /// the count of lines to scroll, pages being of the given height
    pub fn to_lines(self, page_height: usize) -> (n: i32)
        requires
            i32::MIN <= scroll_lines(self, page_height) <= i32::MAX,
        ensures
            n == scroll_lines(self, page_height),
    {
        match self {
            Self::Lines(n) => n,
            Self::Pages(n) => n * (page_height as i32),
        }
    }

    /// compute the new scroll value
    pub fn apply(self, scroll: usize, content_height: usize, page_height: usize) -> (s: usize)
        requires
            i32::MIN <= scroll_lines(self, page_height) <= i32::MAX,
            i32::MIN <= (#[verifier::truncate] (scroll as i32)) + scroll_lines(self, page_height) <= i32::MAX,
            i32::MIN <= (#[verifier::truncate] (content_height as i32))
                - (#[verifier::truncate] (page_height as i32)) <= i32::MAX,
            i32::MIN <= (#[verifier::truncate] (content_height as i32))
                - (#[verifier::truncate] (page_height as i32)) + 1 <= i32::MAX,
        ensures
            s == applied_scroll(self, scroll, content_height, page_height),
    {
        let moved = scroll as i32 + self.to_lines(page_height);
        let max = content_height as i32 - page_height as i32 + 1;
        let bounded = if moved < max { moved } else { max };
        let r = if bounded > 0 { bounded } else { 0 };
        r as usize
    }
}

} // verus!
