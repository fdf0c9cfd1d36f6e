use vstd::prelude::*;

use crate::random::random_u64;

verus! {

/// The amount of normal patches in the game.
pub const AMOUNT_OF_NORMAL_PATCHES: usize = 33;

/// The amount of special patches on the time board.
pub const AMOUNT_OF_SPECIAL_PATCHES: usize = 5;

/// The amount of tiles on a quilt board.
pub const QUILT_BOARD_TILES: usize = 81;

/// The amount of rows of a quilt board.
pub const QUILT_BOARD_ROWS: usize = 9;

/// The amount of columns of a quilt board.
pub const QUILT_BOARD_COLUMNS: usize = 9;

/// The last position on the time board (positions go from 0 to this value).
pub const TIME_BOARD_MAX_POSITION: usize = 53;

/// The amount of starting patches (the patch next to the neutral token).
pub const AMOUNT_OF_STARTING_PATCHES: usize = 1;

/// The amount of patches that are not the starting patch.
pub const AMOUNT_OF_NON_STARTING_PATCHES: usize = 32;

/// The button balance a player starts with.
pub const STARTING_BUTTON_BALANCE: usize = 5;

/// The amount of button income triggers on the time board.
pub const AMOUNT_OF_BUTTON_INCOME_TRIGGERS: usize = 9;

/// The buttons a player gets for a fully covered quilt board.
pub const FULL_BOARD_BUTTON_INCOME: usize = 7;

/// What the Zobrist hash reads of one player.
#[derive(Copy, Clone, Debug, PartialEq, Eq, Hash, Structural)]
pub struct PlayerHashState {
    /// The covered tiles of the quilt board: bit `i` is set when tile `i`
    /// (row-major, `row * 9 + column`) is covered.
    pub quilt_board: u128,
    /// The position of the player on the time board.
    pub position: usize,
    /// The amount of buttons the player owns.
    pub button_balance: usize,
    /// The button income of the player's quilt board.
    pub button_income: usize,
}

/// What the Zobrist hash reads of a game state.
#[derive(Clone, Debug, PartialEq, Eq, Hash)]
pub struct HashGameState {
    /// The ids of the patches that are laid out, starting with the next patch.
    pub patches: Vec<usize>,
    /// The special patches on the time board: bit `i` is set when a special
    /// patch lies at time board index `i`.
    pub special_patches: u64,
    /// Whether it is player 2's turn.
    pub player_2_to_move: bool,
    /// What the hash reads of player 1.
    pub player_1: PlayerHashState,
    /// What the hash reads of player 2.
    pub player_2: PlayerHashState,
}

/// Whether tile `index` of a quilt board is covered.
pub open spec fn tile_covered(quilt_board: u128, index: int) -> bool {
    (quilt_board >> (index as u128)) & 1u128 == 1u128
}

/// Whether a special patch lies at time board index `index`.
pub open spec fn special_patch_at(special_patches: u64, index: int) -> bool {
    (special_patches >> (index as u64)) & 1u64 == 1u64
}

/// The time board index of the `k`-th special patch.
pub open spec fn special_patch_position(k: int) -> int {
    26 + 6 * k
}

/// Whether a player's values are within the ranges the hash has numbers for.
pub open spec fn player_hashable(player: PlayerHashState) -> bool {
    &&& player.position <= TIME_BOARD_MAX_POSITION
    &&& player.button_balance <= ZobristHash::MAX_BUTTON_BALANCE
    &&& player.button_income <= ZobristHash::MAX_BUTTON_INCOME
}

/// Whether a game state is within the ranges the hash has numbers for.
pub open spec fn game_hashable(game: HashGameState) -> bool {
    &&& forall|i: int| 0 <= i < game.patches@.len() ==> #[trigger] game.patches@[i] < AMOUNT_OF_NORMAL_PATCHES
    &&& player_hashable(game.player_1)
    &&& player_hashable(game.player_2)
}

/// The amount of patches the hash reads of a game state.
pub open spec fn hashed_patch_count(game: HashGameState) -> nat {
    if game.patches@.len() < ZobristHash::AMOUNT_OF_PATCHES {
        game.patches@.len()
    } else {
        ZobristHash::AMOUNT_OF_PATCHES as nat
    }
}

proof fn lemma_xor_moves_right(a: u64, x: u64, b: u64)
    by (bit_vector)
    ensures
        (a ^ x) ^ b == (a ^ b) ^ x,
{
}

proof fn lemma_xor_first_three_replaced(
    b: u64,
    v1: u64,
    v2: u64,
    v3: u64,
    v4: u64,
    v5: u64,
    v6: u64,
    w1: u64,
    w2: u64,
    w3: u64,
)
    by (bit_vector)
    ensures
        b ^ w1 ^ w2 ^ w3 ^ v4 ^ v5 ^ v6 == (b ^ v1 ^ v2 ^ v3 ^ v4 ^ v5 ^ v6) ^ (v1 ^ v2 ^ v3) ^ (w1 ^ w2
            ^ w3),
{
}

proof fn lemma_xor_last_three_replaced(
    b: u64,
    v1: u64,
    v2: u64,
    v3: u64,
    v4: u64,
    v5: u64,
    v6: u64,
    w4: u64,
    w5: u64,
    w6: u64,
)
    by (bit_vector)
    ensures
        b ^ v1 ^ v2 ^ v3 ^ w4 ^ w5 ^ w6 == (b ^ v1 ^ v2 ^ v3 ^ v4 ^ v5 ^ v6) ^ (v4 ^ v5 ^ v6) ^ (w4 ^ w5
            ^ w6),
{
}

proof fn lemma_xor_swap_in(a: u64, b: u64, x: u64, y: u64)
    by (bit_vector)
    ensures
        (a ^ x ^ y) ^ b == (a ^ b) ^ x ^ y,
{
}

proof fn lemma_xor_associates(a: u64, x: u64, y: u64)
    by (bit_vector)
    ensures
        a ^ x ^ y == a ^ (x ^ y),
{
}

proof fn lemma_xor_self_inverse(a: u64, x: u64)
    by (bit_vector)
    ensures
        (a ^ x) ^ x == a,
{
}

/// A Zobrist hash for Patchwork: a random number for each part of the game
/// state, XORed together for the parts that are present.
#[derive(Debug, PartialEq, Eq, Hash)]
pub struct ZobristHash {
    /// A number for each patch at each of its possible positions in the line
    /// of patches (indexed `patch_id * 33 + position`).
    zobrist_patches_table: Vec<u64>,
    /// A number for each special patch.
    zobrist_special_patches_table: Vec<u64>,
    /// A number for when it is player 2's turn.
    zobrist_player_2_to_move: u64,
    /// A number for each tile of player 1's quilt board.
    zobrist_player_1_quilt_board_table: Vec<u64>,
    /// A number for each position of player 1 on the time board.
    zobrist_player_1_position_table: Vec<u64>,
    /// A number for each button balance of player 1.
    zobrist_player_1_button_balance_table: Vec<u64>,
    /// A number for each button income of player 1.
    zobrist_player_1_button_income_table: Vec<u64>,
    /// A number for each tile of player 2's quilt board.
    zobrist_player_2_quilt_board_table: Vec<u64>,
    /// A number for each position of player 2 on the time board.
    zobrist_player_2_position_table: Vec<u64>,
    /// A number for each button balance of player 2.
    zobrist_player_2_button_balance_table: Vec<u64>,
    /// A number for each button income of player 2.
    zobrist_player_2_button_income_table: Vec<u64>,
}

/// Fills a new table with `length` random numbers.
fn random_table(length: usize) -> (table: Vec<u64>)
    ensures
        table@.len() == length,
{
    let mut table: Vec<u64> = Vec::new();
    for _i in 0..length
        invariant
            table@.len() == _i,
    {
        table.push(random_u64());
    }
    table
}

impl ZobristHash {
    /// The amount of patches of the line of patches that the hash reads: the
    /// starting patch and all other patches.
    pub const AMOUNT_OF_PATCHES: usize = 33;

    /// The maximum button income a player can have (see the estimate in the
    /// documentation of the game).
    pub const MAX_BUTTON_INCOME: usize = 32;

    /// An upper bound of the button balance a player can have:
    /// `5 + 9 · 32 + 7 + 53 = 353`.
    pub const MAX_BUTTON_BALANCE: usize = 353;

    /// The tables have one number for every value the game state can have.
    #[verifier::type_invariant]
    spec fn tables_complete(self) -> bool {
        &&& self.zobrist_patches_table@.len() == AMOUNT_OF_NORMAL_PATCHES * AMOUNT_OF_NORMAL_PATCHES
        &&& self.zobrist_special_patches_table@.len() == AMOUNT_OF_SPECIAL_PATCHES
        &&& self.zobrist_player_1_quilt_board_table@.len() == QUILT_BOARD_TILES
        &&& self.zobrist_player_1_position_table@.len() == TIME_BOARD_MAX_POSITION + 1
        &&& self.zobrist_player_1_button_balance_table@.len() == Self::MAX_BUTTON_BALANCE + 1
        &&& self.zobrist_player_1_button_income_table@.len() == Self::MAX_BUTTON_INCOME + 1
        &&& self.zobrist_player_2_quilt_board_table@.len() == QUILT_BOARD_TILES
        &&& self.zobrist_player_2_position_table@.len() == TIME_BOARD_MAX_POSITION + 1
        &&& self.zobrist_player_2_button_balance_table@.len() == Self::MAX_BUTTON_BALANCE + 1
        &&& self.zobrist_player_2_button_income_table@.len() == Self::MAX_BUTTON_INCOME + 1
    }

    /// The hash after the first `n` patches of the line were hashed.
    closed spec fn patches_part(self, patches: Seq<usize>, n: nat) -> u64
        decreases n,
    {
        if n == 0 {
            0
        } else {
            self.patches_part(patches, (n - 1) as nat) ^ self.zobrist_patches_table@[patches[n
                - 1] * AMOUNT_OF_NORMAL_PATCHES + (n - 1)]
        }
    }

    /// The hash after the first `k` special patches were looked at.
    closed spec fn special_patches_part(self, start: u64, special_patches: u64, k: nat) -> u64
        decreases k,
    {
        if k == 0 {
            start
        } else {
            let previous = self.special_patches_part(start, special_patches, (k - 1) as nat);
            if special_patch_at(special_patches, special_patch_position(k - 1)) {
                previous ^ self.zobrist_special_patches_table@[k - 1]
            } else {
                previous
            }
        }
    }

    /// The hash after the first `n` tiles of both quilt boards were looked at.
    closed spec fn quilt_boards_part(self, start: u64, board_1: u128, board_2: u128, n: nat) -> u64
        decreases n,
    {
        if n == 0 {
            start
        } else {
            let previous = self.quilt_boards_part(start, board_1, board_2, (n - 1) as nat);
            let after_1 = if tile_covered(board_1, n - 1) {
                previous ^ self.zobrist_player_1_quilt_board_table@[n - 1]
            } else {
                previous
            };
            if tile_covered(board_2, n - 1) {
                after_1 ^ self.zobrist_player_2_quilt_board_table@[n - 1]
            } else {
                after_1
            }
        }
    }

    /// The hash of a game state: the numbers of all parts that are present,
    /// XORed together in the order patches, special patches, player to move,
    /// quilt boards, then position, button balance and button income of
    /// player 1 and of player 2.
    pub closed spec fn hash_of(self, game: HashGameState) -> u64 {
        let patches = self.patches_part(game.patches@, hashed_patch_count(game));
        let specials = self.special_patches_part(
            patches,
            game.special_patches,
            AMOUNT_OF_SPECIAL_PATCHES as nat,
        );
        let turn = if game.player_2_to_move {
            specials ^ self.zobrist_player_2_to_move
        } else {
            specials
        };
        let boards = self.quilt_boards_part(
            turn,
            game.player_1.quilt_board,
            game.player_2.quilt_board,
            QUILT_BOARD_TILES as nat,
        );
        boards ^ self.zobrist_player_1_position_table@[game.player_1.position as int]
            ^ self.zobrist_player_1_button_balance_table@[game.player_1.button_balance as int]
            ^ self.zobrist_player_1_button_income_table@[game.player_1.button_income as int]
            ^ self.zobrist_player_2_position_table@[game.player_2.position as int]
            ^ self.zobrist_player_2_button_balance_table@[game.player_2.button_balance as int]
            ^ self.zobrist_player_2_button_income_table@[game.player_2.button_income as int]
    }

    /// Whether two hashes use the same random numbers.
    pub closed spec fn same_numbers(self, other: Self) -> bool {
        &&& self.zobrist_patches_table@ == other.zobrist_patches_table@
        &&& self.zobrist_special_patches_table@ == other.zobrist_special_patches_table@
        &&& self.zobrist_player_2_to_move == other.zobrist_player_2_to_move
        &&& self.zobrist_player_1_quilt_board_table@ == other.zobrist_player_1_quilt_board_table@
        &&& self.zobrist_player_1_position_table@ == other.zobrist_player_1_position_table@
        &&& self.zobrist_player_1_button_balance_table@
            == other.zobrist_player_1_button_balance_table@
        &&& self.zobrist_player_1_button_income_table@
            == other.zobrist_player_1_button_income_table@
        &&& self.zobrist_player_2_quilt_board_table@ == other.zobrist_player_2_quilt_board_table@
        &&& self.zobrist_player_2_position_table@ == other.zobrist_player_2_position_table@
        &&& self.zobrist_player_2_button_balance_table@
            == other.zobrist_player_2_button_balance_table@
        &&& self.zobrist_player_2_button_income_table@
            == other.zobrist_player_2_button_income_table@
    }

    proof fn lemma_same_numbers_same_parts(self, other: Self, game: HashGameState, n: nat)
        requires
            self.same_numbers(other),
        ensures
            self.patches_part(game.patches@, n) == other.patches_part(game.patches@, n),
            forall|start: u64|
                self.special_patches_part(start, game.special_patches, n)
                    == other.special_patches_part(start, game.special_patches, n),
            forall|start: u64|
                self.quilt_boards_part(start, game.player_1.quilt_board, game.player_2.quilt_board, n)
                    == other.quilt_boards_part(
                    start,
                    game.player_1.quilt_board,
                    game.player_2.quilt_board,
                    n,
                ),
        decreases n,
    {
        if n > 0 {
            self.lemma_same_numbers_same_parts(other, game, (n - 1) as nat);
            assert forall|start: u64|
                self.special_patches_part(start, game.special_patches, n)
                    == other.special_patches_part(start, game.special_patches, n) by {
                assert(self.special_patches_part(start, game.special_patches, (n - 1) as nat)
                    == other.special_patches_part(start, game.special_patches, (n - 1) as nat));
            }
            assert forall|start: u64|
                self.quilt_boards_part(start, game.player_1.quilt_board, game.player_2.quilt_board, n)
                    == other.quilt_boards_part(
                    start,
                    game.player_1.quilt_board,
                    game.player_2.quilt_board,
                    n,
                ) by {
                assert(self.quilt_boards_part(
                    start,
                    game.player_1.quilt_board,
                    game.player_2.quilt_board,
                    (n - 1) as nat,
                ) == other.quilt_boards_part(
                    start,
                    game.player_1.quilt_board,
                    game.player_2.quilt_board,
                    (n - 1) as nat,
                ));
            }
        }
    }

    /// Two hashes with the same random numbers hash a game state alike.
    proof fn lemma_same_numbers_same_hash(self, other: Self, game: HashGameState)
        requires
            self.same_numbers(other),
        ensures
            self.hash_of(game) == other.hash_of(game),
    {
        self.lemma_same_numbers_same_parts(other, game, hashed_patch_count(game));
        self.lemma_same_numbers_same_parts(other, game, AMOUNT_OF_SPECIAL_PATCHES as nat);
        self.lemma_same_numbers_same_parts(other, game, QUILT_BOARD_TILES as nat);
    }

    /// The number that is XORed in when it is player 2's turn.
    pub closed spec fn player_2_to_move_number(self) -> u64 {
        self.zobrist_player_2_to_move
    }

    proof fn lemma_quilt_boards_part_xor(self, start: u64, x: u64, board_1: u128, board_2: u128, n: nat)
        ensures
            self.quilt_boards_part(start ^ x, board_1, board_2, n) == self.quilt_boards_part(
                start,
                board_1,
                board_2,
                n,
            ) ^ x,
        decreases n,
    {
        if n > 0 {
            self.lemma_quilt_boards_part_xor(start, x, board_1, board_2, (n - 1) as nat);
            let previous = self.quilt_boards_part(start, board_1, board_2, (n - 1) as nat);
            let a = self.zobrist_player_1_quilt_board_table@[n - 1];
            let b = self.zobrist_player_2_quilt_board_table@[n - 1];
            lemma_xor_moves_right(previous, x, a);
            lemma_xor_moves_right(previous, x, b);
            lemma_xor_moves_right(previous ^ a, x, b);
        }
    }

    /// The hash is incremental in whose turn it is: the same position with
    /// the other player to move hashes to the hash XORed with the turn number.
    pub proof fn lemma_turn_toggles_hash(self, game: HashGameState, other: HashGameState)
        requires
            other.patches@ == game.patches@,
            other.special_patches == game.special_patches,
            other.player_2_to_move == !game.player_2_to_move,
            other.player_1 == game.player_1,
            other.player_2 == game.player_2,
        ensures
            self.hash_of(other) == self.hash_of(game) ^ self.player_2_to_move_number(),
    {
        let x = self.zobrist_player_2_to_move;
        let patches = self.patches_part(game.patches@, hashed_patch_count(game));
        let specials = self.special_patches_part(
            patches,
            game.special_patches,
            AMOUNT_OF_SPECIAL_PATCHES as nat,
        );
        let turn = if game.player_2_to_move {
            specials ^ x
        } else {
            specials
        };
        let other_turn = if other.player_2_to_move {
            specials ^ x
        } else {
            specials
        };
        lemma_xor_self_inverse(specials, x);
        assert(other_turn == turn ^ x);
        let b1 = game.player_1.quilt_board;
        let b2 = game.player_2.quilt_board;
        let n = QUILT_BOARD_TILES as nat;
        self.lemma_quilt_boards_part_xor(turn, x, b1, b2, n);
        let boards = self.quilt_boards_part(turn, b1, b2, n);
        let v1 = self.zobrist_player_1_position_table@[game.player_1.position as int];
        let v2 = self.zobrist_player_1_button_balance_table@[game.player_1.button_balance as int];
        let v3 = self.zobrist_player_1_button_income_table@[game.player_1.button_income as int];
        let v4 = self.zobrist_player_2_position_table@[game.player_2.position as int];
        let v5 = self.zobrist_player_2_button_balance_table@[game.player_2.button_balance as int];
        let v6 = self.zobrist_player_2_button_income_table@[game.player_2.button_income as int];
        lemma_xor_moves_right(boards, x, v1);
        lemma_xor_moves_right(boards ^ v1, x, v2);
        lemma_xor_moves_right(boards ^ v1 ^ v2, x, v3);
        lemma_xor_moves_right(boards ^ v1 ^ v2 ^ v3, x, v4);
        lemma_xor_moves_right(boards ^ v1 ^ v2 ^ v3 ^ v4, x, v5);
        lemma_xor_moves_right(boards ^ v1 ^ v2 ^ v3 ^ v4 ^ v5, x, v6);
        assert(hashed_patch_count(other) == hashed_patch_count(game));
    }

    /// The number that is XORed in when tile `i` of player 1's quilt board
    /// is covered.
    pub closed spec fn player_1_quilt_number(self, i: int) -> u64 {
        self.zobrist_player_1_quilt_board_table@[i]
    }

    /// The number that is XORed in when tile `i` of player 2's quilt board
    /// is covered.
    pub closed spec fn player_2_quilt_number(self, i: int) -> u64 {
        self.zobrist_player_2_quilt_board_table@[i]
    }

    /// Over the first `n` tiles, a second board of player 1 that differs
    /// from the first only at tile `i` XORs the part with tile `i`'s number
    /// (when `i` is among those tiles).
    proof fn lemma_quilt_boards_part_toggle_1(
        self,
        start: u64,
        board_1: u128,
        toggled: u128,
        board_2: u128,
        i: int,
        n: nat,
    )
        requires
            forall|j: int| 0 <= j < n && j != i ==> tile_covered(toggled, j) == tile_covered(board_1, j),
            0 <= i < n ==> tile_covered(toggled, i) != tile_covered(board_1, i),
        ensures
            self.quilt_boards_part(start, toggled, board_2, n) == if 0 <= i < n {
                self.quilt_boards_part(start, board_1, board_2, n) ^ self.zobrist_player_1_quilt_board_table@[i]
            } else {
                self.quilt_boards_part(start, board_1, board_2, n)
            },
        decreases n,
    {
        if n > 0 {
            let m = (n - 1) as nat;
            self.lemma_quilt_boards_part_toggle_1(start, board_1, toggled, board_2, i, m);
            let previous = self.quilt_boards_part(start, board_1, board_2, m);
            let x = self.zobrist_player_1_quilt_board_table@[i];
            let a = self.zobrist_player_1_quilt_board_table@[m as int];
            let b = self.zobrist_player_2_quilt_board_table@[m as int];
            lemma_xor_moves_right(previous, x, a);
            lemma_xor_moves_right(previous, x, b);
            lemma_xor_moves_right(previous ^ a, x, b);
            lemma_xor_moves_right(previous, a, b);
            lemma_xor_self_inverse(previous, a);
            lemma_xor_self_inverse(previous ^ b, a);
        }
    }

    /// Over the first `n` tiles, a second board of player 2 that differs
    /// from the first only at tile `i` XORs the part with tile `i`'s number
    /// (when `i` is among those tiles).
    proof fn lemma_quilt_boards_part_toggle_2(
        self,
        start: u64,
        board_1: u128,
        board_2: u128,
        toggled: u128,
        i: int,
        n: nat,
    )
        requires
            forall|j: int| 0 <= j < n && j != i ==> tile_covered(toggled, j) == tile_covered(board_2, j),
            0 <= i < n ==> tile_covered(toggled, i) != tile_covered(board_2, i),
        ensures
            self.quilt_boards_part(start, board_1, toggled, n) == if 0 <= i < n {
                self.quilt_boards_part(start, board_1, board_2, n) ^ self.zobrist_player_2_quilt_board_table@[i]
            } else {
                self.quilt_boards_part(start, board_1, board_2, n)
            },
        decreases n,
    {
        if n > 0 {
            let m = (n - 1) as nat;
            self.lemma_quilt_boards_part_toggle_2(start, board_1, board_2, toggled, i, m);
            let previous = self.quilt_boards_part(start, board_1, board_2, m);
            let x = self.zobrist_player_2_quilt_board_table@[i];
            let a = self.zobrist_player_1_quilt_board_table@[m as int];
            let b = self.zobrist_player_2_quilt_board_table@[m as int];
            let after_1 = if tile_covered(board_1, m as int) {
                previous ^ a
            } else {
                previous
            };
            lemma_xor_moves_right(previous, x, a);
            lemma_xor_moves_right(after_1, x, b);
            lemma_xor_self_inverse(after_1, b);
        }
    }

    /// A change of the hash of the quilt boards carries through the numbers
    /// of the players' positions, button balances and button incomes.
    proof fn lemma_boards_change_moves_through(self, game: HashGameState, boards: u64, x: u64)
        ensures
            (boards ^ x) ^ self.zobrist_player_1_position_table@[game.player_1.position as int]
                ^ self.zobrist_player_1_button_balance_table@[game.player_1.button_balance as int]
                ^ self.zobrist_player_1_button_income_table@[game.player_1.button_income as int]
                ^ self.zobrist_player_2_position_table@[game.player_2.position as int]
                ^ self.zobrist_player_2_button_balance_table@[game.player_2.button_balance as int]
                ^ self.zobrist_player_2_button_income_table@[game.player_2.button_income as int] == (boards
                ^ self.zobrist_player_1_position_table@[game.player_1.position as int]
                ^ self.zobrist_player_1_button_balance_table@[game.player_1.button_balance as int]
                ^ self.zobrist_player_1_button_income_table@[game.player_1.button_income as int]
                ^ self.zobrist_player_2_position_table@[game.player_2.position as int]
                ^ self.zobrist_player_2_button_balance_table@[game.player_2.button_balance as int]
                ^ self.zobrist_player_2_button_income_table@[game.player_2.button_income as int]) ^ x,
    {
        let v1 = self.zobrist_player_1_position_table@[game.player_1.position as int];
        let v2 = self.zobrist_player_1_button_balance_table@[game.player_1.button_balance as int];
        let v3 = self.zobrist_player_1_button_income_table@[game.player_1.button_income as int];
        let v4 = self.zobrist_player_2_position_table@[game.player_2.position as int];
        let v5 = self.zobrist_player_2_button_balance_table@[game.player_2.button_balance as int];
        let v6 = self.zobrist_player_2_button_income_table@[game.player_2.button_income as int];
        lemma_xor_moves_right(boards, x, v1);
        lemma_xor_moves_right(boards ^ v1, x, v2);
        lemma_xor_moves_right(boards ^ v1 ^ v2, x, v3);
        lemma_xor_moves_right(boards ^ v1 ^ v2 ^ v3, x, v4);
        lemma_xor_moves_right(boards ^ v1 ^ v2 ^ v3 ^ v4, x, v5);
        lemma_xor_moves_right(boards ^ v1 ^ v2 ^ v3 ^ v4 ^ v5, x, v6);
    }

    /// The hash depends on player 1's quilt board tile by tile: covering or
    /// uncovering tile `i` of player 1's board (and nothing else) XORs the
    /// hash with player 1's number for tile `i`.
    pub proof fn lemma_player_1_tile_toggles_hash(self, game: HashGameState, other: HashGameState, i: int)
        requires
            0 <= i < QUILT_BOARD_TILES,
            other.patches@ == game.patches@,
            other.special_patches == game.special_patches,
            other.player_2_to_move == game.player_2_to_move,
            other.player_2 == game.player_2,
            other.player_1.position == game.player_1.position,
            other.player_1.button_balance == game.player_1.button_balance,
            other.player_1.button_income == game.player_1.button_income,
            tile_covered(other.player_1.quilt_board, i) != tile_covered(game.player_1.quilt_board, i),
            forall|j: int|
                0 <= j < QUILT_BOARD_TILES && j != i ==> tile_covered(other.player_1.quilt_board, j)
                    == tile_covered(game.player_1.quilt_board, j),
        ensures
            self.hash_of(other) == self.hash_of(game) ^ self.player_1_quilt_number(i),
    {
        let patches = self.patches_part(game.patches@, hashed_patch_count(game));
        let specials = self.special_patches_part(
            patches,
            game.special_patches,
            AMOUNT_OF_SPECIAL_PATCHES as nat,
        );
        let turn = if game.player_2_to_move {
            specials ^ self.zobrist_player_2_to_move
        } else {
            specials
        };
        let n = QUILT_BOARD_TILES as nat;
        self.lemma_quilt_boards_part_toggle_1(
            turn,
            game.player_1.quilt_board,
            other.player_1.quilt_board,
            game.player_2.quilt_board,
            i,
            n,
        );
        let boards = self.quilt_boards_part(turn, game.player_1.quilt_board, game.player_2.quilt_board, n);
        self.lemma_boards_change_moves_through(game, boards, self.zobrist_player_1_quilt_board_table@[i]);
        assert(hashed_patch_count(other) == hashed_patch_count(game));
    }

    /// The hash depends on player 2's quilt board tile by tile: covering or
    /// uncovering tile `i` of player 2's board (and nothing else) XORs the
    /// hash with player 2's number for tile `i`.
    pub proof fn lemma_player_2_tile_toggles_hash(self, game: HashGameState, other: HashGameState, i: int)
        requires
            0 <= i < QUILT_BOARD_TILES,
            other.patches@ == game.patches@,
            other.special_patches == game.special_patches,
            other.player_2_to_move == game.player_2_to_move,
            other.player_1 == game.player_1,
            other.player_2.position == game.player_2.position,
            other.player_2.button_balance == game.player_2.button_balance,
            other.player_2.button_income == game.player_2.button_income,
            tile_covered(other.player_2.quilt_board, i) != tile_covered(game.player_2.quilt_board, i),
            forall|j: int|
                0 <= j < QUILT_BOARD_TILES && j != i ==> tile_covered(other.player_2.quilt_board, j)
                    == tile_covered(game.player_2.quilt_board, j),
        ensures
            self.hash_of(other) == self.hash_of(game) ^ self.player_2_quilt_number(i),
    {
        let patches = self.patches_part(game.patches@, hashed_patch_count(game));
        let specials = self.special_patches_part(
            patches,
            game.special_patches,
            AMOUNT_OF_SPECIAL_PATCHES as nat,
        );
        let turn = if game.player_2_to_move {
            specials ^ self.zobrist_player_2_to_move
        } else {
            specials
        };
        let n = QUILT_BOARD_TILES as nat;
        self.lemma_quilt_boards_part_toggle_2(
            turn,
            game.player_1.quilt_board,
            game.player_2.quilt_board,
            other.player_2.quilt_board,
            i,
            n,
        );
        let boards = self.quilt_boards_part(turn, game.player_1.quilt_board, game.player_2.quilt_board, n);
        self.lemma_boards_change_moves_through(game, boards, self.zobrist_player_2_quilt_board_table@[i]);
        assert(hashed_patch_count(other) == hashed_patch_count(game));
    }

    /// The numbers of a player's position, button balance and button income,
    /// XORed together (player 2's when `second`, player 1's otherwise).
    pub closed spec fn player_number(self, second: bool, player: PlayerHashState) -> u64 {
        if second {
            self.zobrist_player_2_position_table@[player.position as int]
                ^ self.zobrist_player_2_button_balance_table@[player.button_balance as int]
                ^ self.zobrist_player_2_button_income_table@[player.button_income as int]
        } else {
            self.zobrist_player_1_position_table@[player.position as int]
                ^ self.zobrist_player_1_button_balance_table@[player.button_balance as int]
                ^ self.zobrist_player_1_button_income_table@[player.button_income as int]
        }
    }

    /// The hash depends on the position, button balance and button income of
    /// player 1: changing them (and nothing else) XORs the hash with the
    /// numbers of the old and of the new values.
    pub proof fn lemma_player_1_values_change_hash(self, game: HashGameState, other: HashGameState)
        requires
            other.patches@ == game.patches@,
            other.special_patches == game.special_patches,
            other.player_2_to_move == game.player_2_to_move,
            other.player_2 == game.player_2,
            other.player_1.quilt_board == game.player_1.quilt_board,
        ensures
            self.hash_of(other) == self.hash_of(game) ^ self.player_number(false, game.player_1)
                ^ self.player_number(false, other.player_1),
    {
        assert(hashed_patch_count(other) == hashed_patch_count(game));
        let patches = self.patches_part(game.patches@, hashed_patch_count(game));
        let specials = self.special_patches_part(
            patches,
            game.special_patches,
            AMOUNT_OF_SPECIAL_PATCHES as nat,
        );
        let turn = if game.player_2_to_move {
            specials ^ self.zobrist_player_2_to_move
        } else {
            specials
        };
        let boards = self.quilt_boards_part(
            turn,
            game.player_1.quilt_board,
            game.player_2.quilt_board,
            QUILT_BOARD_TILES as nat,
        );
        lemma_xor_first_three_replaced(
            boards,
            self.zobrist_player_1_position_table@[game.player_1.position as int],
            self.zobrist_player_1_button_balance_table@[game.player_1.button_balance as int],
            self.zobrist_player_1_button_income_table@[game.player_1.button_income as int],
            self.zobrist_player_2_position_table@[game.player_2.position as int],
            self.zobrist_player_2_button_balance_table@[game.player_2.button_balance as int],
            self.zobrist_player_2_button_income_table@[game.player_2.button_income as int],
            self.zobrist_player_1_position_table@[other.player_1.position as int],
            self.zobrist_player_1_button_balance_table@[other.player_1.button_balance as int],
            self.zobrist_player_1_button_income_table@[other.player_1.button_income as int],
        );
    }

    /// The hash depends on the position, button balance and button income of
    /// player 2: changing them (and nothing else) XORs the hash with the
    /// numbers of the old and of the new values.
    pub proof fn lemma_player_2_values_change_hash(self, game: HashGameState, other: HashGameState)
        requires
            other.patches@ == game.patches@,
            other.special_patches == game.special_patches,
            other.player_2_to_move == game.player_2_to_move,
            other.player_1 == game.player_1,
            other.player_2.quilt_board == game.player_2.quilt_board,
        ensures
            self.hash_of(other) == self.hash_of(game) ^ self.player_number(true, game.player_2)
                ^ self.player_number(true, other.player_2),
    {
        assert(hashed_patch_count(other) == hashed_patch_count(game));
        let patches = self.patches_part(game.patches@, hashed_patch_count(game));
        let specials = self.special_patches_part(
            patches,
            game.special_patches,
            AMOUNT_OF_SPECIAL_PATCHES as nat,
        );
        let turn = if game.player_2_to_move {
            specials ^ self.zobrist_player_2_to_move
        } else {
            specials
        };
        let boards = self.quilt_boards_part(
            turn,
            game.player_1.quilt_board,
            game.player_2.quilt_board,
            QUILT_BOARD_TILES as nat,
        );
        lemma_xor_last_three_replaced(
            boards,
            self.zobrist_player_1_position_table@[game.player_1.position as int],
            self.zobrist_player_1_button_balance_table@[game.player_1.button_balance as int],
            self.zobrist_player_1_button_income_table@[game.player_1.button_income as int],
            self.zobrist_player_2_position_table@[game.player_2.position as int],
            self.zobrist_player_2_button_balance_table@[game.player_2.button_balance as int],
            self.zobrist_player_2_button_income_table@[game.player_2.button_income as int],
            self.zobrist_player_2_position_table@[other.player_2.position as int],
            self.zobrist_player_2_button_balance_table@[other.player_2.button_balance as int],
            self.zobrist_player_2_button_income_table@[other.player_2.button_income as int],
        );
    }

    /// The number that is XORed in when the `k`-th special patch lies on the
    /// time board.
    pub closed spec fn special_patch_number(self, k: int) -> u64 {
        self.zobrist_special_patches_table@[k]
    }

    /// The number that is XORed in when `patch` lies at position `k` of the
    /// line of patches.
    pub closed spec fn patch_number(self, patch: int, k: int) -> u64 {
        self.zobrist_patches_table@[patch * AMOUNT_OF_NORMAL_PATCHES + k]
    }

    proof fn lemma_special_patches_part_xor(self, start: u64, x: u64, special_patches: u64, k: nat)
        ensures
            self.special_patches_part(start ^ x, special_patches, k) == self.special_patches_part(
                start,
                special_patches,
                k,
            ) ^ x,
        decreases k,
    {
        if k > 0 {
            self.lemma_special_patches_part_xor(start, x, special_patches, (k - 1) as nat);
            let previous = self.special_patches_part(start, special_patches, (k - 1) as nat);
            lemma_xor_moves_right(previous, x, self.zobrist_special_patches_table@[k - 1]);
        }
    }

    proof fn lemma_special_patches_part_toggle(
        self,
        start: u64,
        special_patches: u64,
        toggled: u64,
        m: int,
        k: nat,
    )
        requires
            forall|j: int|
                0 <= j < k && j != m ==> special_patch_at(toggled, special_patch_position(j)) == special_patch_at(
                    special_patches,
                    special_patch_position(j),
                ),
            0 <= m < k ==> special_patch_at(toggled, special_patch_position(m)) != special_patch_at(
                special_patches,
                special_patch_position(m),
            ),
        ensures
            self.special_patches_part(start, toggled, k) == if 0 <= m < k {
                self.special_patches_part(start, special_patches, k) ^ self.zobrist_special_patches_table@[m]
            } else {
                self.special_patches_part(start, special_patches, k)
            },
        decreases k,
    {
        if k > 0 {
            self.lemma_special_patches_part_toggle(start, special_patches, toggled, m, (k - 1) as nat);
            let previous = self.special_patches_part(start, special_patches, (k - 1) as nat);
            let x = self.zobrist_special_patches_table@[m];
            let b = self.zobrist_special_patches_table@[k - 1];
            lemma_xor_moves_right(previous, x, b);
            lemma_xor_self_inverse(previous, b);
        }
    }

    proof fn lemma_patches_part_change(self, patches: Seq<usize>, other: Seq<usize>, k: int, n: nat)
        requires
            patches.len() == other.len(),
            n <= patches.len(),
            0 <= k < patches.len(),
            forall|j: int| 0 <= j < patches.len() && j != k ==> other[j] == patches[j],
        ensures
            self.patches_part(other, n) == if k < n {
                self.patches_part(patches, n) ^ self.zobrist_patches_table@[patches[k] * AMOUNT_OF_NORMAL_PATCHES
                    + k] ^ self.zobrist_patches_table@[other[k] * AMOUNT_OF_NORMAL_PATCHES + k]
            } else {
                self.patches_part(patches, n)
            },
        decreases n,
    {
        if n > 0 {
            let m = (n - 1) as nat;
            self.lemma_patches_part_change(patches, other, k, m);
            let previous = self.patches_part(patches, m);
            let old_number = self.zobrist_patches_table@[patches[k] * AMOUNT_OF_NORMAL_PATCHES + k];
            let new_number = self.zobrist_patches_table@[other[k] * AMOUNT_OF_NORMAL_PATCHES + k];
            let b = self.zobrist_patches_table@[patches[m as int] * AMOUNT_OF_NORMAL_PATCHES + m];
            lemma_xor_swap_in(previous, b, old_number, new_number);
            lemma_xor_self_inverse(previous, old_number);
        }
    }

    /// A change of the hash of the special patches carries through the rest
    /// of the hash.
    proof fn lemma_specials_change_moves_through(self, specials: u64, x: u64, game: HashGameState)
        ensures
            ({
                let turn = if game.player_2_to_move {
                    specials ^ self.zobrist_player_2_to_move
                } else {
                    specials
                };
                let turn_x = if game.player_2_to_move {
                    (specials ^ x) ^ self.zobrist_player_2_to_move
                } else {
                    specials ^ x
                };
                let n = QUILT_BOARD_TILES as nat;
                self.quilt_boards_part(turn_x, game.player_1.quilt_board, game.player_2.quilt_board, n)
                    == self.quilt_boards_part(turn, game.player_1.quilt_board, game.player_2.quilt_board, n) ^ x
            }),
    {
        let turn = if game.player_2_to_move {
            specials ^ self.zobrist_player_2_to_move
        } else {
            specials
        };
        lemma_xor_moves_right(specials, x, self.zobrist_player_2_to_move);
        self.lemma_quilt_boards_part_xor(
            turn,
            x,
            game.player_1.quilt_board,
            game.player_2.quilt_board,
            QUILT_BOARD_TILES as nat,
        );
    }

    /// The hash depends on the special patches on the time board one by
    /// one: adding or taking away the `k`-th special patch (and nothing
    /// else) XORs the hash with that special patch's number.
    pub proof fn lemma_special_patch_toggles_hash(self, game: HashGameState, other: HashGameState, k: int)
        requires
            0 <= k < AMOUNT_OF_SPECIAL_PATCHES,
            other.patches@ == game.patches@,
            other.player_2_to_move == game.player_2_to_move,
            other.player_1 == game.player_1,
            other.player_2 == game.player_2,
            special_patch_at(other.special_patches, special_patch_position(k)) != special_patch_at(
                game.special_patches,
                special_patch_position(k),
            ),
            forall|j: int|
                0 <= j < AMOUNT_OF_SPECIAL_PATCHES && j != k ==> special_patch_at(
                    other.special_patches,
                    special_patch_position(j),
                ) == special_patch_at(game.special_patches, special_patch_position(j)),
        ensures
            self.hash_of(other) == self.hash_of(game) ^ self.special_patch_number(k),
    {
        assert(hashed_patch_count(other) == hashed_patch_count(game));
        let patches = self.patches_part(game.patches@, hashed_patch_count(game));
        let x = self.zobrist_special_patches_table@[k];
        self.lemma_special_patches_part_toggle(
            patches,
            game.special_patches,
            other.special_patches,
            k,
            AMOUNT_OF_SPECIAL_PATCHES as nat,
        );
        let specials = self.special_patches_part(
            patches,
            game.special_patches,
            AMOUNT_OF_SPECIAL_PATCHES as nat,
        );
        self.lemma_specials_change_moves_through(specials, x, game);
        let turn = if game.player_2_to_move {
            specials ^ self.zobrist_player_2_to_move
        } else {
            specials
        };
        let boards = self.quilt_boards_part(
            turn,
            game.player_1.quilt_board,
            game.player_2.quilt_board,
            QUILT_BOARD_TILES as nat,
        );
        self.lemma_boards_change_moves_through(game, boards, x);
    }

    /// The hash depends on each of the first patches of the line that it
    /// reads: putting another patch at position `k` of the line (and
    /// changing nothing else) XORs the hash with the numbers of the old and
    /// the new patch at that position; a position that is not read does not
    /// change the hash.
    pub proof fn lemma_patch_change_changes_hash(self, game: HashGameState, other: HashGameState, k: int)
        requires
            other.patches@.len() == game.patches@.len(),
            0 <= k < game.patches@.len(),
            forall|j: int| 0 <= j < game.patches@.len() && j != k ==> other.patches@[j] == game.patches@[j],
            other.special_patches == game.special_patches,
            other.player_2_to_move == game.player_2_to_move,
            other.player_1 == game.player_1,
            other.player_2 == game.player_2,
        ensures
            self.hash_of(other) == if k < ZobristHash::AMOUNT_OF_PATCHES {
                self.hash_of(game) ^ self.patch_number(game.patches@[k] as int, k) ^ self.patch_number(
                    other.patches@[k] as int,
                    k,
                )
            } else {
                self.hash_of(game)
            },
    {
        let n = hashed_patch_count(game);
        assert(hashed_patch_count(other) == n);
        self.lemma_patches_part_change(game.patches@, other.patches@, k, n);
        let patches = self.patches_part(game.patches@, n);
        if k < n {
            let x = self.zobrist_patches_table@[game.patches@[k] * AMOUNT_OF_NORMAL_PATCHES + k]
                ^ self.zobrist_patches_table@[other.patches@[k] * AMOUNT_OF_NORMAL_PATCHES + k];
            lemma_xor_associates(
                patches,
                self.zobrist_patches_table@[game.patches@[k] * AMOUNT_OF_NORMAL_PATCHES + k],
                self.zobrist_patches_table@[other.patches@[k] * AMOUNT_OF_NORMAL_PATCHES + k],
            );
            self.lemma_special_patches_part_xor(
                patches,
                x,
                game.special_patches,
                AMOUNT_OF_SPECIAL_PATCHES as nat,
            );
            let specials = self.special_patches_part(
                patches,
                game.special_patches,
                AMOUNT_OF_SPECIAL_PATCHES as nat,
            );
            self.lemma_specials_change_moves_through(specials, x, game);
            let turn = if game.player_2_to_move {
                specials ^ self.zobrist_player_2_to_move
            } else {
                specials
            };
            let boards = self.quilt_boards_part(
                turn,
                game.player_1.quilt_board,
                game.player_2.quilt_board,
                QUILT_BOARD_TILES as nat,
            );
            self.lemma_boards_change_moves_through(game, boards, x);
            lemma_xor_associates(
                self.hash_of(game),
                self.zobrist_patches_table@[game.patches@[k] * AMOUNT_OF_NORMAL_PATCHES + k],
                self.zobrist_patches_table@[other.patches@[k] * AMOUNT_OF_NORMAL_PATCHES + k],
            );
        }
    }

    /// Creates a new Zobrist hash with a random number for every part of the
    /// game state: the laid out patches, the special patches, the quilt
    /// boards, the positions, button balances and button incomes of both
    /// players and the player whose turn it is.
    pub fn new() -> (zobrist_hash: Self) {
        let zobrist_patches_table = random_table(AMOUNT_OF_NORMAL_PATCHES * AMOUNT_OF_NORMAL_PATCHES);
        let zobrist_special_patches_table = random_table(AMOUNT_OF_SPECIAL_PATCHES);
        let zobrist_player_1_quilt_board_table = random_table(QUILT_BOARD_TILES);
        let zobrist_player_2_quilt_board_table = random_table(QUILT_BOARD_TILES);
        let zobrist_player_1_position_table = random_table(TIME_BOARD_MAX_POSITION + 1);
        let zobrist_player_2_position_table = random_table(TIME_BOARD_MAX_POSITION + 1);
        let zobrist_player_1_button_balance_table = random_table(Self::MAX_BUTTON_BALANCE + 1);
        let zobrist_player_2_button_balance_table = random_table(Self::MAX_BUTTON_BALANCE + 1);
        let zobrist_player_1_button_income_table = random_table(Self::MAX_BUTTON_INCOME + 1);
        let zobrist_player_2_button_income_table = random_table(Self::MAX_BUTTON_INCOME + 1);
        Self {
            zobrist_player_2_to_move: random_u64(),
            zobrist_patches_table,
            zobrist_special_patches_table,
            zobrist_player_1_quilt_board_table,
            zobrist_player_1_position_table,
            zobrist_player_1_button_balance_table,
            zobrist_player_1_button_income_table,
            zobrist_player_2_quilt_board_table,
            zobrist_player_2_position_table,
            zobrist_player_2_button_balance_table,
            zobrist_player_2_button_income_table,
        }
    }

    /// Hashes the given game state by XORing the numbers of all parts of the
    /// game state that are present.
    pub fn hash(&self, game: &HashGameState) -> (hash: u64)
        requires
            game_hashable(*game),
        ensures
            hash == self.hash_of(*game),
    {
        proof {
            use_type_invariant(self);
        }
        let mut hash: u64 = 0;

        // Hash the next patches (cannot hash more patches than there are)
        let amount = if Self::AMOUNT_OF_PATCHES < game.patches.len() {
            Self::AMOUNT_OF_PATCHES
        } else {
            game.patches.len()
        };
        for position_index in 0..amount
            invariant
                amount == hashed_patch_count(*game),
                amount <= Self::AMOUNT_OF_PATCHES,
                amount <= game.patches@.len(),
                game_hashable(*game),
                self.tables_complete(),
                hash == self.patches_part(game.patches@, position_index as nat),
        {
            let patch_index = game.patches[position_index];
            let index = patch_index * AMOUNT_OF_NORMAL_PATCHES + position_index;
            hash = hash ^ self.zobrist_patches_table[index];
        }
        let ghost after_patches = hash;

        // Hash special patches on the time board
        let special_patch_positions: [u64; 5] = [26, 32, 38, 44, 50];
        for index in 0..AMOUNT_OF_SPECIAL_PATCHES
            invariant
                self.tables_complete(),
                special_patch_positions@ == seq![26u64, 32u64, 38u64, 44u64, 50u64],
                hash == self.special_patches_part(after_patches, game.special_patches, index as nat),
        {
            let position = special_patch_positions[index];
            assert(position == special_patch_position(index as int));
            if (game.special_patches >> position) & 1 == 1 {
                hash = hash ^ self.zobrist_special_patches_table[index];
            }
        }

        // Hash the player turn
        if game.player_2_to_move {
            hash = hash ^ self.zobrist_player_2_to_move;
        }
        let ghost after_turn = hash;

        // Hash the quilt boards of both players
        for row in 0..QUILT_BOARD_ROWS
            invariant
                self.tables_complete(),
                hash == self.quilt_boards_part(
                    after_turn,
                    game.player_1.quilt_board,
                    game.player_2.quilt_board,
                    (row * QUILT_BOARD_COLUMNS) as nat,
                ),
        {
            for column in 0..QUILT_BOARD_COLUMNS
                invariant
                    row < QUILT_BOARD_ROWS,
                    self.tables_complete(),
                    hash == self.quilt_boards_part(
                        after_turn,
                        game.player_1.quilt_board,
                        game.player_2.quilt_board,
                        (row * QUILT_BOARD_COLUMNS + column) as nat,
                    ),
            {
                let index = row * QUILT_BOARD_COLUMNS + column;
                if (game.player_1.quilt_board >> (index as u128)) & 1 == 1 {
                    hash = hash ^ self.zobrist_player_1_quilt_board_table[index];
                }
                if (game.player_2.quilt_board >> (index as u128)) & 1 == 1 {
                    hash = hash ^ self.zobrist_player_2_quilt_board_table[index];
                }
            }
        }

        // Hash position, button balance and button income of both players
        let player_1 = &game.player_1;
        let player_2 = &game.player_2;
        hash = hash ^ self.zobrist_player_1_position_table[player_1.position];
        hash = hash ^ self.zobrist_player_1_button_balance_table[player_1.button_balance];
        hash = hash ^ self.zobrist_player_1_button_income_table[player_1.button_income];
        hash = hash ^ self.zobrist_player_2_position_table[player_2.position];
        hash = hash ^ self.zobrist_player_2_button_balance_table[player_2.button_balance];
        hash = hash ^ self.zobrist_player_2_button_income_table[player_2.button_income];

        hash
    }
}

impl Clone for ZobristHash {
    /// A copy of the hash with the same numbers, so it hashes every game
    /// state to the same value.
    fn clone(&self) -> (copy: Self)
        ensures
            copy.same_numbers(*self),
            forall|game: HashGameState| copy.hash_of(game) == self.hash_of(game),
    {
        proof {
            use_type_invariant(self);
        }
        let copy = ZobristHash {
            zobrist_patches_table: self.zobrist_patches_table.clone(),
            zobrist_special_patches_table: self.zobrist_special_patches_table.clone(),
            zobrist_player_2_to_move: self.zobrist_player_2_to_move,
            zobrist_player_1_quilt_board_table: self.zobrist_player_1_quilt_board_table.clone(),
            zobrist_player_1_position_table: self.zobrist_player_1_position_table.clone(),
            zobrist_player_1_button_balance_table: self.zobrist_player_1_button_balance_table.clone(),
            zobrist_player_1_button_income_table: self.zobrist_player_1_button_income_table.clone(),
            zobrist_player_2_quilt_board_table: self.zobrist_player_2_quilt_board_table.clone(),
            zobrist_player_2_position_table: self.zobrist_player_2_position_table.clone(),
            zobrist_player_2_button_balance_table: self.zobrist_player_2_button_balance_table.clone(),
            zobrist_player_2_button_income_table: self.zobrist_player_2_button_income_table.clone(),
        };
        assert(copy.same_numbers(*self));
        proof {
            assert forall|game: HashGameState| copy.hash_of(game) == self.hash_of(game) by {
                copy.lemma_same_numbers_same_hash(*self, game);
            }
        }
        copy
    }
}

} // verus!
