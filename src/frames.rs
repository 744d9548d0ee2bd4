use vstd::prelude::*;

verus! {

// A frame-bulk script is a list of lines; a line that is a frame bulk runs for its frame count
// of simulated frames, every other line runs for none. Here a script is given by one entry per
// line: `Some(count)` for a frame bulk, `None` for any other line. Scripts never hold a frame
// bulk of zero frames; the functions below accept `Some(0)` all the same and treat it as a bulk
// that simulates no frame, so such a bulk's index appears in no frame's entry.

/// Simulated frames that one line runs for.
pub open spec fn line_frames(line: Option<u32>) -> int {
    match line {
        Some(count) => count as int,
        None => 0,
    }
}

/// Simulated frames run by the first `i` lines.
pub open spec fn frames_before(lines: Seq<Option<u32>>, i: int) -> int
    decreases i,
{
    if i <= 0 {
        0
    } else {
        frames_before(lines, i - 1) + line_frames(lines[i - 1])
    }
}

/// Frame bulks among the first `i` lines.
pub open spec fn bulks_before(lines: Seq<Option<u32>>, i: int) -> int
    decreases i,
{
    if i <= 0 {
        0
    } else {
        bulks_before(lines, i - 1) + if lines[i - 1] is Some {
            1int
        } else {
            0int
        }
    }
}

/// Simulated frames run by the whole script.
pub open spec fn total_frames(lines: Seq<Option<u32>>) -> int {
    frames_before(lines, lines.len() as int)
}

/// Counting frames starts at zero and never goes backwards along the script.
pub proof fn lemma_frames_before_monotone(lines: Seq<Option<u32>>, i: int, j: int)
    requires
        0 <= i <= j,
    ensures
        0 <= frames_before(lines, i) <= frames_before(lines, j),
    decreases j,
{
    if i < j {
        lemma_frames_before_monotone(lines, i, j - 1);
    } else if i > 0 {
        lemma_frames_before_monotone(lines, i - 1, i - 1);
    }
}

/// Counting frame bulks never goes backwards along the script.
pub proof fn lemma_bulks_before_monotone(lines: Seq<Option<u32>>, i: int, j: int)
    requires
        0 <= i <= j,
    ensures
        0 <= bulks_before(lines, i) <= bulks_before(lines, j),
        bulks_before(lines, j) - bulks_before(lines, i) <= j - i,
    decreases j,
{
    if i < j {
        lemma_bulks_before_monotone(lines, i, j - 1);
    } else if i > 0 {
        lemma_bulks_before_monotone(lines, i - 1, i - 1);
    }
}

/// For every simulated frame, in order: the index (among frame bulks) of the frame bulk that
/// simulates it, and whether it is the last frame of that bulk.
pub fn bulk_idx_and_is_last(lines: &Vec<Option<u32>>) -> (r: Vec<(usize, bool)>)
    requires
        total_frames(lines@) <= usize::MAX,
    ensures
        r.len() == total_frames(lines@),
        forall|i: int, k: int|
            0 <= i < lines.len() && frames_before(lines@, i) <= k < frames_before(lines@, i + 1)
                ==> r[k] == (
            bulks_before(lines@, i) as usize,
            k + 1 == frames_before(lines@, i + 1),
        ),
{
    let mut r: Vec<(usize, bool)> = Vec::new();
    let mut bulk: usize = 0;
    let mut i: usize = 0;
    while i < lines.len()
        invariant
            i <= lines.len(),
            total_frames(lines@) <= usize::MAX,
            r.len() == frames_before(lines@, i as int),
            bulk == bulks_before(lines@, i as int),
            forall|i2: int, k: int|
                0 <= i2 < i && frames_before(lines@, i2) <= k < frames_before(lines@, i2 + 1)
                    ==> r[k] == (
                bulks_before(lines@, i2) as usize,
                k + 1 == frames_before(lines@, i2 + 1),
            ),
        decreases lines.len() - i,
    {
        proof {
            lemma_frames_before_monotone(lines@, i + 1, lines.len() as int);
            lemma_bulks_before_monotone(lines@, 0, i + 1);
        }
        if let Some(count) = lines[i] {
            let ghost start = r.len() as int;
            let mut j: u32 = 0;
            while j < count
                invariant
                    j <= count,
                    lines@[i as int] == Some(count),
                    i < lines.len(),
                    start == frames_before(lines@, i as int),
                    start + count == frames_before(lines@, i + 1),
                    frames_before(lines@, i + 1) <= usize::MAX,
                    bulk == bulks_before(lines@, i as int),
                    r.len() == start + j,
                    forall|i2: int, k: int|
                        0 <= i2 < i && frames_before(lines@, i2) <= k < frames_before(
                            lines@,
                            i2 + 1,
                        ) ==> r[k] == (
                        bulks_before(lines@, i2) as usize,
                        k + 1 == frames_before(lines@, i2 + 1),
                    ),
                    forall|k: int|
                        start <= k < start + j ==> r[k] == (bulk, k + 1 == start + count),
                decreases count - j,
            {
                proof {
                    assert forall|i2: int| 0 <= i2 < i implies #[trigger] frames_before(lines@, i2 + 1)
                        <= start by {
                        lemma_frames_before_monotone(lines@, i2 + 1, i as int);
                    }
                }
                let ghost prev = r@;
                r.push((bulk, j + 1 == count));
                proof {
                    assert forall|i2: int, k: int|
                        0 <= i2 < i && frames_before(lines@, i2) <= k < frames_before(
                            lines@,
                            i2 + 1,
                        ) implies r[k] == (
                        bulks_before(lines@, i2) as usize,
                        k + 1 == frames_before(lines@, i2 + 1),
                    ) by {
                        lemma_frames_before_monotone(lines@, i2 + 1, i as int);
                        lemma_frames_before_monotone(lines@, 0, i2);
                        assert(r[k] == prev[k]);
                    }
                    assert forall|k: int| start <= k < start + j + 1 implies #[trigger] r[k] == (
                        bulk,
                        k + 1 == start + count,
                    ) by {
                        if k < start + j {
                            lemma_frames_before_monotone(lines@, 0, i as int);
                            assert(r[k] == prev[k]);
                        }
                    }
                }
                j = j + 1;
            }
            bulk = bulk + 1;
        }
        i = i + 1;
    }
    r
}

/// For every frame bulk, in order, the index of the first frame it simulates. Frame `0` is the
/// initial frame, which no frame bulk simulates, so the first bulk starts at frame `1`.
pub fn bulk_and_first_frame_idx(lines: &Vec<Option<u32>>) -> (r: Vec<usize>)
    requires
        total_frames(lines@) < usize::MAX,
    ensures
        r.len() == bulks_before(lines@, lines.len() as int),
        forall|i: int|
            0 <= i < lines.len() && lines[i] is Some ==> r[bulks_before(lines@, i)] == 1
                + frames_before(lines@, i),
{
    let mut r: Vec<usize> = Vec::new();
    let mut frame_idx: usize = 1;
    let mut i: usize = 0;
    while i < lines.len()
        invariant
            i <= lines.len(),
            total_frames(lines@) < usize::MAX,
            frame_idx == 1 + frames_before(lines@, i as int),
            r.len() == bulks_before(lines@, i as int),
            forall|i2: int|
                0 <= i2 < i && lines[i2] is Some ==> r[bulks_before(lines@, i2)] == 1
                    + frames_before(lines@, i2),
        decreases lines.len() - i,
    {
        proof {
            lemma_frames_before_monotone(lines@, i + 1, lines.len() as int);
            assert forall|i2: int| 0 <= i2 < i && lines[i2] is Some implies bulks_before(
                lines@,
                i2,
            ) < bulks_before(lines@, i as int) by {
                lemma_bulks_before_monotone(lines@, i2 + 1, i as int);
            }
        }
        if let Some(count) = lines[i] {
            let ghost prev = r@;
            r.push(frame_idx);
            proof {
                assert forall|i2: int|
                    0 <= i2 < i + 1 && lines[i2] is Some implies #[trigger] r[bulks_before(
                    lines@,
                    i2,
                )] == 1 + frames_before(lines@, i2) by {
                    if i2 < i {
                        lemma_bulks_before_monotone(lines@, 0, i2);
                        assert(r[bulks_before(lines@, i2)] == prev[bulks_before(lines@, i2)]);
                    }
                }
            }
            frame_idx = frame_idx + count as usize;
        }
        i = i + 1;
    }
    r
}

/// For every line, the index of the first frame it affects. Frame `0` is the initial frame,
/// which no line affects, so the first line affects frame `1`.
pub fn line_first_frame_idx(lines: &Vec<Option<u32>>) -> (r: Vec<usize>)
    requires
        total_frames(lines@) < usize::MAX,
    ensures
        r.len() == lines.len(),
        forall|i: int| 0 <= i < lines.len() ==> r[i] == 1 + frames_before(lines@, i),
{
    let mut r: Vec<usize> = Vec::new();
    let mut frame_idx: usize = 1;
    let mut i: usize = 0;
    while i < lines.len()
        invariant
            i <= lines.len(),
            total_frames(lines@) < usize::MAX,
            frame_idx == 1 + frames_before(lines@, i as int),
            r.len() == i,
            forall|i2: int| 0 <= i2 < i ==> r[i2] == 1 + frames_before(lines@, i2),
        decreases lines.len() - i,
    {
        proof {
            lemma_frames_before_monotone(lines@, i + 1, lines.len() as int);
        }
        r.push(frame_idx);
        if let Some(count) = lines[i] {
            frame_idx = frame_idx + count as usize;
        }
        i = i + 1;
    }
    r
}

/// The line that simulates frame `frame_idx` (counting from the first simulated frame), and
/// how many of that line's frames come before it; `None` past the end of the script.
pub fn line_idx_and_repeat_at_frame(lines: &Vec<Option<u32>>, frame_idx: usize) -> (r: Option<
    (usize, u32),
>)
    ensures
        r is None <==> frame_idx >= total_frames(lines@),
        r matches Some((line, repeat)) ==> {
            &&& line < lines.len()
            &&& frames_before(lines@, line as int) <= frame_idx < frames_before(
                lines@,
                line + 1,
            )
            &&& repeat == frame_idx - frames_before(lines@, line as int)
        },
{
    let mut before: usize = 0;
    let mut i: usize = 0;
    while i < lines.len()
        invariant
            i <= lines.len(),
            before == frames_before(lines@, i as int),
            before <= frame_idx,
        decreases lines.len() - i,
    {
        if let Some(count) = lines[i] {
            if frame_idx - before < count as usize {
                proof {
                    lemma_frames_before_monotone(lines@, i + 1, lines.len() as int);
                }
                return Some((i, (frame_idx - before) as u32));
            }
            before = before + count as usize;
        }
        i = i + 1;
    }
    None
}

} // verus!
