use vstd::prelude::*;
use crate::text::{hundredths_text, push_hundredths};

verus! {

// Coordinates are signed hundredths of a unit, written with two decimals.

/// `x,y` for a point.
pub open spec fn point_text(x: i64, y: i64) -> Seq<char> {
    hundredths_text(x as int) + seq![','] + hundredths_text(y as int)
}

/// A command letter followed by one point.
pub open spec fn cmd_point(c: char, x: i64, y: i64) -> Seq<char> {
    seq![c] + point_text(x, y)
}

fn push_point(out: &mut String, x: i64, y: i64)
    ensures
        final(out)@ == old(out)@ + point_text(x, y),
{
    push_hundredths(out, x);
    out.append(",");
    proof {
        reveal_strlit(",");
    }
    push_hundredths(out, y);
    assert(final(out)@ =~= old(out)@ + point_text(x, y));
}

fn push_cmd_point(out: &mut String, cmd: &str, x: i64, y: i64)
    requires
        cmd@.len() == 1,
    ensures
        final(out)@ == old(out)@ + cmd@ + point_text(x, y),
{
    out.append(cmd);
    push_point(out, x, y);
    assert(final(out)@ =~= old(out)@ + cmd@ + point_text(x, y));
}

/// Builds an SVG path one command at a time.
#[derive(Debug)]
pub struct PathBuilder {
    commands: String,
}

impl Default for PathBuilder {
    fn default() -> (r: Self)
        ensures
            r.text() == Seq::<char>::empty(),
    {
        PathBuilder::new()
    }
}

impl PathBuilder {
    /// The commands written so far.
    pub closed spec fn text(&self) -> Seq<char> {
        self.commands@
    }

    pub fn new() -> (r: PathBuilder)
        ensures
            r.text() == Seq::<char>::empty(),
    {
        PathBuilder { commands: String::new() }
    }

    pub fn move_to(self, x: i64, y: i64) -> (r: PathBuilder)
        ensures
            r.text() == self.text() + cmd_point('M', x, y),
    {
        let mut b = self;
        proof {
            reveal_strlit("M");
        }
        push_cmd_point(&mut b.commands, "M", x, y);
        assert(b.commands@ =~= self.text() + cmd_point('M', x, y));
        b
    }

    pub fn line_to(self, x: i64, y: i64) -> (r: PathBuilder)
        ensures
            r.text() == self.text() + cmd_point('L', x, y),
    {
        let mut b = self;
        proof {
            reveal_strlit("L");
        }
        push_cmd_point(&mut b.commands, "L", x, y);
        assert(b.commands@ =~= self.text() + cmd_point('L', x, y));
        b
    }

    pub fn horizontal_to(self, x: i64) -> (r: PathBuilder)
        ensures
            r.text() == self.text() + seq!['H'] + hundredths_text(x as int),
    {
        let mut b = self;
        b.commands.append("H");
        proof {
            reveal_strlit("H");
        }
        push_hundredths(&mut b.commands, x);
        assert(b.commands@ =~= self.text() + seq!['H'] + hundredths_text(x as int));
        b
    }

    pub fn vertical_to(self, y: i64) -> (r: PathBuilder)
        ensures
            r.text() == self.text() + seq!['V'] + hundredths_text(y as int),
    {
        let mut b = self;
        b.commands.append("V");
        proof {
            reveal_strlit("V");
        }
        push_hundredths(&mut b.commands, y);
        assert(b.commands@ =~= self.text() + seq!['V'] + hundredths_text(y as int));
        b
    }

    /// Cubic curve through two control points to `(x, y)`.
    pub fn cubic_to(self, x1: i64, y1: i64, x2: i64, y2: i64, x: i64, y: i64) -> (r: PathBuilder)
        ensures
            r.text() == self.text() + cmd_point('C', x1, y1) + seq![','] + point_text(x2, y2)
                + seq![','] + point_text(x, y),
    {
        let mut b = self;
        proof {
            reveal_strlit("C");
            reveal_strlit(",");
        }
        push_cmd_point(&mut b.commands, "C", x1, y1);
        b.commands.append(",");
        push_point(&mut b.commands, x2, y2);
        b.commands.append(",");
        push_point(&mut b.commands, x, y);
        assert(b.commands@ =~= self.text() + cmd_point('C', x1, y1) + seq![','] + point_text(x2, y2)
            + seq![','] + point_text(x, y));
        b
    }

    /// Quadratic curve through one control point to `(x, y)`.
    pub fn quadratic_to(self, x1: i64, y1: i64, x: i64, y: i64) -> (r: PathBuilder)
        ensures
            r.text() == self.text() + cmd_point('Q', x1, y1) + seq![','] + point_text(x, y),
    {
        let mut b = self;
        proof {
            reveal_strlit("Q");
            reveal_strlit(",");
        }
        push_cmd_point(&mut b.commands, "Q", x1, y1);
        b.commands.append(",");
        push_point(&mut b.commands, x, y);
        assert(b.commands@ =~= self.text() + cmd_point('Q', x1, y1) + seq![','] + point_text(x, y));
        b
    }

    /// Elliptical arc to `(x, y)`; the two flags are written as `0` or `1`.
    pub fn arc_to(
        self,
        rx: i64,
        ry: i64,
        rotation: i64,
        large_arc: bool,
        sweep: bool,
        x: i64,
        y: i64,
    ) -> (r: PathBuilder)
        ensures
            r.text() == self.text() + cmd_point('A', rx, ry) + seq![','] + hundredths_text(
                rotation as int,
            ) + seq![','] + seq![flag_char(large_arc)] + seq![','] + seq![flag_char(sweep)]
                + seq![','] + point_text(x, y),
    {
        let mut b = self;
        proof {
            reveal_strlit("A");
            reveal_strlit(",");
            reveal_strlit("0");
            reveal_strlit("1");
        }
        push_cmd_point(&mut b.commands, "A", rx, ry);
        b.commands.append(",");
        push_hundredths(&mut b.commands, rotation);
        b.commands.append(",");
        b.commands.append(if large_arc { "1" } else { "0" });
        b.commands.append(",");
        b.commands.append(if sweep { "1" } else { "0" });
        b.commands.append(",");
        push_point(&mut b.commands, x, y);
        assert(b.commands@ =~= self.text() + cmd_point('A', rx, ry) + seq![','] + hundredths_text(
            rotation as int,
        ) + seq![','] + seq![flag_char(large_arc)] + seq![','] + seq![flag_char(sweep)]
            + seq![','] + point_text(x, y));
        b
    }

    /// Closes the current sub-path.
    pub fn close(self) -> (r: PathBuilder)
        ensures
            r.text() == self.text() + seq!['Z'],
    {
        let mut b = self;
        b.commands.append("Z");
        proof {
            reveal_strlit("Z");
        }
        assert(b.commands@ =~= self.text() + seq!['Z']);
        b
    }

    /// The path text.
    pub fn build(self) -> (r: String)
        ensures
            r@ == self.text(),
    {
        self.commands
    }
}

/// `1` for a set flag, `0` otherwise.
pub open spec fn flag_char(b: bool) -> char {
    if b { '1' } else { '0' }
}

/// Turns a run of points into path text.
pub trait PathGenerator {
    spec fn generate_spec(&self, points: Seq<(i64, i64)>) -> Seq<char>;

    fn generate(&self, points: &[(i64, i64)]) -> (r: String)
        ensures
            r@ == self.generate_spec(points@),
    ;
}

/// Straight segments between the points.
#[derive(Debug, Clone, Copy, Default)]
pub struct LinePath;

/// The line path over the first `n` points of `s` (`n >= 1`).
pub open spec fn line_prefix(s: Seq<(i64, i64)>, n: nat) -> Seq<char>
    decreases n,
{
    if n <= 1 {
        cmd_point('M', s[0].0, s[0].1)
    } else {
        line_prefix(s, (n - 1) as nat) + cmd_point('L', s[n - 1].0, s[n - 1].1)
    }
}

impl PathGenerator for LinePath {
    open spec fn generate_spec(&self, points: Seq<(i64, i64)>) -> Seq<char> {
        if points.len() == 0 {
            Seq::empty()
        } else {
            line_prefix(points, points.len())
        }
    }

    fn generate(&self, points: &[(i64, i64)]) -> (r: String) {
        let mut path = String::new();
        let n = points.len();
        if n == 0 {
            return path;
        }
        proof {
            reveal_strlit("M");
            reveal_strlit("L");
        }
        let (x, y) = points[0];
        push_cmd_point(&mut path, "M", x, y);
        assert(path@ =~= line_prefix(points@, 1));
        let mut i: usize = 1;
        while i < n
            invariant
                1 <= i <= n,
                n == points@.len(),
                path@ == line_prefix(points@, i as nat),
            decreases n - i,
        {
            let (x, y) = points[i];
            proof {
                reveal_strlit("L");
            }
            push_cmd_point(&mut path, "L", x, y);
            assert(path@ =~= line_prefix(points@, (i + 1) as nat));
            i = i + 1;
        }
        path
    }
}

/// Where a step path changes level between two points.
#[derive(Debug, Clone, Copy, PartialEq, Eq, Structural)]
pub enum StepPosition {
    /// Vertical first, at the earlier point.
    Before,
    /// Horizontal first, vertical at the later point.
    After,
    /// Vertical halfway between the two points.
    Middle,
}

impl Default for StepPosition {
    fn default() -> (r: Self)
        ensures
            r == StepPosition::Before,
    {
        StepPosition::Before
    }
}

/// Horizontal and vertical segments between the points.
#[derive(Debug, Clone, Copy)]
pub struct StepPath {
    pub step_position: StepPosition,
}

impl Default for StepPath {
    fn default() -> (r: Self)
        ensures
            r.step_position == StepPosition::Before,
    {
        StepPath { step_position: StepPosition::Before }
    }
}

/// `(a + b) / 2`, rounded down.
pub open spec fn half_sum(a: i64, b: i64) -> int {
    let s = a + b;
    if s >= 0 {
        s / 2
    } else {
        -((-s + 1) / 2)
    }
}

/// The segment from point `i - 1` to point `i` of a step path.
pub open spec fn step_segment(pos: StepPosition, s: Seq<(i64, i64)>, i: int) -> Seq<char> {
    let (x0, y0) = s[i - 1];
    let (x1, y1) = s[i];
    match pos {
        StepPosition::Before => seq!['V'] + hundredths_text(y1 as int) + seq!['H'] + hundredths_text(x1 as int),
        StepPosition::After => seq!['H'] + hundredths_text(x1 as int) + seq!['V'] + hundredths_text(y1 as int),
        StepPosition::Middle => seq!['H'] + hundredths_text(half_sum(x0, x1)) + seq!['V']
            + hundredths_text(y1 as int) + seq!['H'] + hundredths_text(x1 as int),
    }
}

/// The step path over the first `n` points of `s` (`n >= 1`).
pub open spec fn step_prefix(pos: StepPosition, s: Seq<(i64, i64)>, n: nat) -> Seq<char>
    decreases n,
{
    if n <= 1 {
        cmd_point('M', s[0].0, s[0].1)
    } else {
        step_prefix(pos, s, (n - 1) as nat) + step_segment(pos, s, n - 1)
    }
}

fn push_letter_value(out: &mut String, letter: &str, v: i64)
    requires
        letter@.len() == 1,
    ensures
        final(out)@ == old(out)@ + letter@ + hundredths_text(v as int),
{
    out.append(letter);
    push_hundredths(out, v);
    assert(final(out)@ =~= old(out)@ + letter@ + hundredths_text(v as int));
}

impl PathGenerator for StepPath {
    open spec fn generate_spec(&self, points: Seq<(i64, i64)>) -> Seq<char> {
        if points.len() == 0 {
            Seq::empty()
        } else {
            step_prefix(self.step_position, points, points.len())
        }
    }

    fn generate(&self, points: &[(i64, i64)]) -> (r: String) {
        let mut path = String::new();
        let n = points.len();
        if n == 0 {
            return path;
        }
        proof {
            reveal_strlit("M");
            reveal_strlit("H");
            reveal_strlit("V");
        }
        let (x, y) = points[0];
        push_cmd_point(&mut path, "M", x, y);
        assert(path@ =~= step_prefix(self.step_position, points@, 1));
        let mut i: usize = 1;
        while i < n
            invariant
                1 <= i <= n,
                n == points@.len(),
                path@ == step_prefix(self.step_position, points@, i as nat),
            decreases n - i,
        {
            let (x0, _y0) = points[i - 1];
            let (x1, y1) = points[i];
            let ghost before = path@;
            proof {
                reveal_strlit("H");
                reveal_strlit("V");
            }
            match self.step_position {
                StepPosition::Before => {
                    push_letter_value(&mut path, "V", y1);
                    push_letter_value(&mut path, "H", x1);
                },
                StepPosition::After => {
                    push_letter_value(&mut path, "H", x1);
                    push_letter_value(&mut path, "V", y1);
                },
                StepPosition::Middle => {
                    let s = x0 as i128 + x1 as i128;
                    let mid: i128 = if s >= 0 {
                        s / 2
                    } else {
                        -((-s + 1) / 2)
                    };
                    push_letter_value(&mut path, "H", mid as i64);
                    push_letter_value(&mut path, "V", y1);
                    push_letter_value(&mut path, "H", x1);
                },
            }
            assert(path@ =~= before + step_segment(self.step_position, points@, i as int));
            i = i + 1;
        }
        path
    }
}

/// A closed area: down to the baseline at the first point, along the
/// points, down to the baseline at the last point, closed.
pub fn area_path(points: &[(i64, i64)], baseline_y: i64) -> (r: String)
    ensures
        points@.len() == 0 ==> r@ == Seq::<char>::empty(),
        points@.len() > 0 ==> r@ == cmd_point('M', points@[0].0, baseline_y) + area_body(points@, points@.len())
            + cmd_point('L', points@.last().0, baseline_y) + seq!['Z'],
{
    let n = points.len();
    if n == 0 {
        return String::new();
    }
    let (x0, y0) = points[0];
    let mut b = PathBuilder::new().move_to(x0, baseline_y).line_to(x0, y0);
    let ghost head = cmd_point('M', points@[0].0, baseline_y);
    assert(area_body(points@, 0) == Seq::<char>::empty());
    assert(area_body(points@, 1) == area_body(points@, 0) + cmd_point('L', points@[0].0, points@[0].1));
    assert(b.text() =~= head + area_body(points@, 1));
    let mut i: usize = 1;
    while i < n
        invariant
            1 <= i <= n,
            n == points@.len(),
            b.text() == head + area_body(points@, i as nat),
        decreases n - i,
    {
        let (x, y) = points[i];
        b = b.line_to(x, y);
        assert(b.text() =~= head + area_body(points@, (i + 1) as nat));
        i = i + 1;
    }
    let (lx, _ly) = points[n - 1];
    b = b.line_to(lx, baseline_y);
    b.close().build()
}

/// `L` commands through the first `n` points of `s`.
pub open spec fn area_body(s: Seq<(i64, i64)>, n: nat) -> Seq<char>
    decreases n,
{
    if n == 0 {
        Seq::empty()
    } else {
        area_body(s, (n - 1) as nat) + cmd_point('L', s[n - 1].0, s[n - 1].1)
    }
}

/// A line path through the points.
pub fn line_path(points: &[(i64, i64)]) -> (r: String)
    ensures
        r@ == LinePath.generate_spec(points@),
{
    LinePath.generate(points)
}

} // verus!
