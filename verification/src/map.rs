//! Tiles and the grid they form.

use vstd::prelude::*;
use vstd::string::StringExecFns;
use crate::console::{Color, Glyph};
use crate::description::Describe;
use crate::layout::{byte_len, lemma_byte_len_push, line_views, lines, split_lines, Line};
use crate::util::{Pos, Position};

verus! {

/// `std::io::Error`, the error of reading a file. A value of it is carried
/// along and never looked into.
#[verifier::external_type_specification]
#[verifier::external_body]
pub struct ExIoError(std::io::Error);

/// `std::num::ParseIntError`, the error of reading a number from a text. A
/// value of it is carried along and never looked into.
#[verifier::external_type_specification]
#[verifier::external_body]
pub struct ExParseIntError(std::num::ParseIntError);

/// Why a map could not be loaded. `TileMap::load` finds the faults of a
/// layout; the others are for whoever reads the map's file.
#[derive(Debug)]
pub enum MapLoadingError {
    /// The file could not be read.
    IOError(std::io::Error),
    /// A number in the file was none.
    ParseIntError(std::num::ParseIntError),
    /// The file held nothing.
    EmptyFile,
    /// The file did not say what a map needs to be told.
    InvalidSettings,
    /// A row of the layout has the first number of bytes, the map the
    /// second number of columns.
    InvalidWidth(usize, usize),
    /// The layout has the first number of rows, the map the second.
    InvalidHeight(usize, usize),
    /// The layout holds a character that stands for no tile.
    InvalidTile(char),
    /// The file names no cell for the player to start from.
    NoPlayerPosition,
}

/// What a map is loaded from.
pub struct MapConfig {
    /// The number of columns, `x`, and of rows, `y`.
    pub dimensions: Pos<usize>,
    pub player_position: Position,
    /// The tiles: a line for each row, a character for each tile.
    pub layout: String,
}

/// What a cell of the map is made of.
#[derive(Clone, Copy, PartialEq, Eq, Debug, Structural)]
pub enum Tile {
    Ground,
    Floor,
    Wall,
    Rock,
    Tree,
}

impl Tile {
    /// Whether nothing can step onto this tile.
    pub open spec fn solid(self) -> bool {
        self is Wall || self is Rock || self is Tree
    }

    /// The character that the tile is drawn as: ground a full stop, floor
    /// a blank, a wall a hash, rock a block of light shade, a tree a club.
    pub open spec fn glyph(self) -> char {
        match self {
            Tile::Ground => '.',
            Tile::Floor => ' ',
            Tile::Wall => '#',
            Tile::Rock => '\u{b0}',
            Tile::Tree => '\u{05}',
        }
    }

    /// The tile that `c` stands for in a layout.
    pub open spec fn of_glyph(c: char) -> Option<Tile> {
        if c == '.' {
            Some(Tile::Ground)
        } else if c == ' ' {
            Some(Tile::Floor)
        } else if c == '#' {
            Some(Tile::Wall)
        } else if c == '+' {
            Some(Tile::Rock)
        } else if c == 'T' {
            Some(Tile::Tree)
        } else {
            None
        }
    }

    /// The tile that `chr` stands for in a layout, if it stands for one.
    pub fn from_config(chr: char) -> (t: Option<Tile>)
        ensures
            t == Tile::of_glyph(chr),
    {
        match chr {
            '.' => Some(Tile::Ground),
            ' ' => Some(Tile::Floor),
            '#' => Some(Tile::Wall),
            '+' => Some(Tile::Rock),
            'T' => Some(Tile::Tree),
            _ => None,
        }
    }

    /// Whether nothing can step onto this tile.
    #[verifier::when_used_as_spec(solid)]
    pub fn is_solid(self) -> (b: bool)
        ensures
            b == self.solid(),
    {
        match self {
            Tile::Ground | Tile::Floor => false,
            Tile::Wall | Tile::Rock | Tile::Tree => true,
        }
    }
}

/// A tile as the character that it is drawn as.
impl From<Tile> for char {
    fn from(tile: Tile) -> (c: char) {
        match tile {
            Tile::Ground => '.',
            Tile::Floor => ' ',
            Tile::Wall => '#',
            Tile::Rock => '\u{b0}',
            Tile::Tree => '\u{05}',
        }
    }
}

impl vstd::std_specs::convert::FromSpecImpl<Tile> for char {
    open spec fn obeys_from_spec() -> bool {
        true
    }

    open spec fn from_spec(tile: Tile) -> char {
        tile.glyph()
    }
}

/// An error of reading the file as an error of loading the map.
impl From<std::io::Error> for MapLoadingError {
    fn from(err: std::io::Error) -> (e: MapLoadingError) {
        MapLoadingError::IOError(err)
    }
}

impl vstd::std_specs::convert::FromSpecImpl<std::io::Error> for MapLoadingError {
    open spec fn obeys_from_spec() -> bool {
        true
    }

    open spec fn from_spec(err: std::io::Error) -> MapLoadingError {
        MapLoadingError::IOError(err)
    }
}

/// An error of reading a number as an error of loading the map.
impl From<std::num::ParseIntError> for MapLoadingError {
    fn from(err: std::num::ParseIntError) -> (e: MapLoadingError) {
        MapLoadingError::ParseIntError(err)
    }
}

impl vstd::std_specs::convert::FromSpecImpl<std::num::ParseIntError> for MapLoadingError {
    open spec fn obeys_from_spec() -> bool {
        true
    }

    open spec fn from_spec(err: std::num::ParseIntError) -> MapLoadingError {
        MapLoadingError::ParseIntError(err)
    }
}

/// Each kind of tile is described under an identifier of its own.
impl Describe for Tile {
    open spec fn id(&self) -> Seq<char> {
        match self {
            Tile::Ground => "tile.ground"@,
            Tile::Floor => "tile.floor"@,
            Tile::Wall => "tile.wall"@,
            Tile::Rock => "tile.rock"@,
            Tile::Tree => "tile.tree"@,
        }
    }

    fn desc_id(&self) -> (id: String) {
        String::from_str(
            match self {
                Tile::Ground => "tile.ground",
                Tile::Floor => "tile.floor",
                Tile::Wall => "tile.wall",
                Tile::Rock => "tile.rock",
                Tile::Tree => "tile.tree",
            },
        )
    }
}

/// A rectangle of tiles, stored row by row, with the cell where the
/// player starts.
pub struct TileMap {
    tiles: Vec<Tile>,
    width: usize,
    height: usize,
    player_position: Position,
}

impl TileMap {
    #[verifier::type_invariant]
    spec fn well_formed(&self) -> bool {
        self.tiles@.len() == self.width * self.height
    }

    /// The number of columns.
    pub closed spec fn spec_width(&self) -> usize {
        self.width
    }

    /// The number of rows.
    pub closed spec fn spec_height(&self) -> usize {
        self.height
    }

    /// The cell where the player starts.
    pub closed spec fn spec_player_position(&self) -> Position {
        self.player_position
    }

    /// The tiles, row by row: the tile of cell `(x, y)` is at `x + y * width`.
    pub closed spec fn tiles(&self) -> Seq<Tile> {
        self.tiles@
    }

    /// Whether `pos` is a cell of this map.
    pub open spec fn spec_contains(&self, pos: Position) -> bool {
        pos.x < self.width() && pos.y < self.height()
    }

    /// Whether `pos` is a cell of this map.
    #[verifier::when_used_as_spec(spec_contains)]
    pub fn contains(&self, pos: Position) -> (within: bool)
        ensures
            within == self.spec_contains(pos),
    {
        (pos.x as u64) < (self.width as u64) && (pos.y as u64) < (self.height as u64)
    }

    /// The tile in column `x` of row `y`.
    pub open spec fn cell(&self, x: int, y: int) -> Tile {
        self.tiles()[x + y * self.width()]
    }

    /// The tile of the cell `pos`.
    pub open spec fn tile(&self, pos: Position) -> Tile {
        self.cell(pos.x as int, pos.y as int)
    }

    /// Whether this is the map that `config` describes: of its width and
    /// height, with its cell for the player, and in each cell the tile that
    /// the layout has a character for.
    pub open spec fn built_from(&self, config: &MapConfig) -> bool {
        &&& self.width() == config.dimensions.x
        &&& self.height() == config.dimensions.y
        &&& self.player_position() == config.player_position
        &&& self.tiles().len() == self.width() * self.height()
        &&& forall|x: int, y: int|
            0 <= x < self.width() && 0 <= y < self.height() ==> Some(self.cell(x, y))
                == Tile::of_glyph(#[trigger] config.rows()[y][x])
    }

    /// The number of columns.
    #[verifier::when_used_as_spec(spec_width)]
    pub fn width(&self) -> (w: usize)
        ensures
            w == self.spec_width(),
    {
        self.width
    }

    /// The number of rows.
    #[verifier::when_used_as_spec(spec_height)]
    pub fn height(&self) -> (h: usize)
        ensures
            h == self.spec_height(),
    {
        self.height
    }

    /// The cell where the player starts.
    #[verifier::when_used_as_spec(spec_player_position)]
    pub fn player_position(&self) -> (p: Position)
        ensures
            p == self.spec_player_position(),
    {
        self.player_position
    }

    /// Builds the map that `config` describes. The layout must have as
    /// many rows as the map, each row as many bytes as the map has columns,
    /// and every character must stand for a tile. The first fault found,
    /// reading row by row, is the one reported.
    pub fn load(config: MapConfig) -> (r: Result<TileMap, MapLoadingError>)
        ensures
            match r {
                Ok(map) => config.fault() is None && map.built_from(&config),
                Err(e) => config.fault() == Some(e),
            },
    {
        let rows: Vec<Line> = split_lines(config.layout.as_str());
        let width: usize = config.dimensions.x;
        let height: usize = config.dimensions.y;
        if rows.len() != height {
            return Err(MapLoadingError::InvalidHeight(rows.len(), height));
        }
        let ghost text = line_views(rows@);
        let mut tiles: Vec<Tile> = Vec::new();
        let mut y: usize = 0;
        assert(text.skip(0) =~= text);
        while y < rows.len()
            invariant
                y <= rows@.len() == height,
                text == line_views(rows@),
                text == config.rows(),
                width == config.dimensions.x,
                height == config.dimensions.y,
                forall|j: int| 0 <= j < rows@.len() ==> (#[trigger] rows@[j]).wf(),
                layout_fault(text, width) == layout_fault(text.skip(y as int), width),
                tiles@.len() == y * width,
                forall|i: int, j: int|
                    0 <= i < width && 0 <= j < y ==> Some(tiles@[i + j * width]) == Tile::of_glyph(
                        #[trigger] text[j][i],
                    ),
            decreases rows@.len() - y,
        {
            let row: &Line = &rows[y];
            let ghost glyphs = row.chars@;
            proof {
                assert(text.skip(y as int).drop_first() =~= text.skip(y + 1));
            }
            if row.bytes != width {
                return Err(MapLoadingError::InvalidWidth(row.bytes, width));
            }
            let ghost before = tiles@;
            let ghost later = layout_fault(text.skip(y + 1), width);
            let mut x: usize = 0;
            assert(glyphs.skip(0) =~= glyphs);
            while x < row.chars.len()
                invariant
                    x <= glyphs.len(),
                    config.fault() == match first_unknown_glyph(glyphs) {
                        Some(c) => Some(MapLoadingError::InvalidTile(c)),
                        None => later,
                    },
                    glyphs == row.chars@,
                    byte_len(glyphs) == width,
                    byte_len(glyphs.take(x as int)) == x,
                    first_unknown_glyph(glyphs) == first_unknown_glyph(glyphs.skip(x as int)),
                    tiles@.len() == before.len() + x,
                    forall|k: int| 0 <= k < before.len() ==> tiles@[k] == before[k],
                    forall|i: int|
                        0 <= i < x ==> Some(#[trigger] tiles@[before.len() + i]) == Tile::of_glyph(
                            glyphs[i],
                        ),
                decreases glyphs.len() - x,
            {
                let chr: char = row.chars[x];
                proof {
                    assert(glyphs.skip(x as int).drop_first() =~= glyphs.skip(x + 1));
                    assert(glyphs.take(x + 1) =~= glyphs.take(x as int).push(chr));
                    lemma_byte_len_push(glyphs.take(x as int), chr);
                }
                match Tile::from_config(chr) {
                    Some(tile) => {
                        tiles.push(tile);
                    },
                    None => {
                        return Err(MapLoadingError::InvalidTile(chr));
                    },
                }
                x = x + 1;
            }
            proof {
                assert((y + 1) * width == y * width + width) by (nonlinear_arith);
                assert forall|i: int, j: int| 0 <= i < width && 0 <= j < y + 1 implies Some(
                    tiles@[i + j * width],
                ) == Tile::of_glyph(#[trigger] text[j][i]) by {
                    if j < y {
                        assert((j + 1) * width <= y * width) by (nonlinear_arith)
                            requires
                                j + 1 <= y,
                                width >= 0,
                        ;
                        assert((j + 1) * width == j * width + width) by (nonlinear_arith);
                        assert(j * width >= 0) by (nonlinear_arith)
                            requires
                                j >= 0,
                                width >= 0,
                        ;
                    } else {
                        assert(tiles@[before.len() + i] == tiles@[i + j * width]);
                    }
                }
            }
            y = y + 1;
        }
        proof {
            assert(y * width == width * height) by (nonlinear_arith)
                requires
                    y == height,
            ;
        }
        Ok(
            TileMap {
                tiles: tiles,
                width: width,
                height: height,
                player_position: config.player_position,
            },
        )
    }

    /// How the map is drawn: each tile as its character, white on black,
    /// on the cell of the screen with the tile's column and row.
    pub open spec fn drawn(&self) -> Seq<Glyph> {
        Seq::new(
            self.tiles().len(),
            |i: int|
                Glyph {
                    position: Pos {
                        x: (i % self.width() as int) as i32,
                        y: (i / self.width() as int) as i32,
                    },
                    symbol: self.tiles()[i].glyph(),
                    fg: Color::white(),
                    bg: Color::black(),
                },
        )
    }

    /// The characters to draw the map with, row by row.
    pub fn render(&self) -> (glyphs: Vec<Glyph>)
        ensures
            glyphs@ == self.drawn(),
    {
        proof {
            use_type_invariant(self);
        }
        let mut glyphs: Vec<Glyph> = Vec::new();
        let mut i: usize = 0;
        while i < self.tiles.len()
            invariant
                i <= self.tiles@.len(),
                self.tiles@.len() == self.width * self.height,
                glyphs@.len() == i,
                forall|k: int|
                    0 <= k < i ==> #[trigger] glyphs@[k] == (Glyph {
                        position: Pos {
                            x: (k % self.width as int) as i32,
                            y: (k / self.width as int) as i32,
                        },
                        symbol: self.tiles@[k].glyph(),
                        fg: Color::white(),
                        bg: Color::black(),
                    }),
            decreases self.tiles@.len() - i,
        {
            assert(self.width != 0) by (nonlinear_arith)
                requires
                    i < self.width * self.height,
            ;
            let x: usize = i % self.width;
            let y: usize = i / self.width;
            glyphs.push(
                Glyph {
                    position: Pos {
                        x: #[verifier::truncate] (x as i32),
                        y: #[verifier::truncate] (y as i32),
                    },
                    symbol: char::from(self.tiles[i]),
                    fg: Color::white(),
                    bg: Color::black(),
                },
            );
            i = i + 1;
        }
        glyphs
    }

    /// Looks up the tile of a cell of the map.
    pub fn tile_at(&self, pos: Position) -> (t: Tile)
        requires
            self.contains(pos),
        ensures
            t == self.tile(pos),
    {
        let len: usize = self.tiles.len();
        proof {
            use_type_invariant(self);
            lemma_cell_index(pos.x as int, pos.y as int, self.width as int, self.height as int);
        }
        let x: usize = pos.x as usize;
        let y: usize = pos.y as usize;
        self.tiles[x + y * self.width]
    }
}

/// The first character of `row` that stands for no tile.
pub open spec fn first_unknown_glyph(row: Seq<char>) -> Option<char>
    decreases row.len(),
{
    if row.len() == 0 {
        None
    } else if Tile::of_glyph(row[0]) is None {
        Some(row[0])
    } else {
        first_unknown_glyph(row.drop_first())
    }
}

/// What is wrong with `row` as a row of a map that is `width` tiles wide:
/// its length in bytes, or else the first character that stands for no
/// tile.
pub open spec fn row_fault(row: Seq<char>, width: usize) -> Option<MapLoadingError> {
    if byte_len(row) != width {
        Some(MapLoadingError::InvalidWidth(byte_len(row) as usize, width))
    } else {
        match first_unknown_glyph(row) {
            Some(c) => Some(MapLoadingError::InvalidTile(c)),
            None => None,
        }
    }
}

/// What is wrong with the first of `rows` that has a fault.
pub open spec fn layout_fault(rows: Seq<Seq<char>>, width: usize) -> Option<MapLoadingError>
    decreases rows.len(),
{
    if rows.len() == 0 {
        None
    } else {
        match row_fault(rows[0], width) {
            Some(e) => Some(e),
            None => layout_fault(rows.drop_first(), width),
        }
    }
}

impl MapConfig {
    /// The rows of the layout.
    pub open spec fn rows(&self) -> Seq<Seq<char>> {
        lines(self.layout@)
    }

    /// Why no map can be loaded from this, if none can.
    pub open spec fn fault(&self) -> Option<MapLoadingError> {
        if self.rows().len() != self.dimensions.y {
            Some(MapLoadingError::InvalidHeight(self.rows().len() as usize, self.dimensions.y))
        } else {
            layout_fault(self.rows(), self.dimensions.x)
        }
    }
}

/// The cell `(x, y)` of a grid of `width` by `height` cells has an index
/// below `width * height`.
pub proof fn lemma_cell_index(x: int, y: int, width: int, height: int)
    requires
        0 <= x < width,
        0 <= y < height,
    ensures
        0 <= y * width <= x + y * width < width * height,
{
    assert(y * width >= 0) by (nonlinear_arith)
        requires
            y >= 0,
            width >= 0,
    ;
    assert((y + 1) * width <= height * width) by (nonlinear_arith)
        requires
            y + 1 <= height,
            width >= 0,
    ;
    assert((y + 1) * width == y * width + width) by (nonlinear_arith);
}

} // verus!
