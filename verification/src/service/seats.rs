//! Seating grids: taking a passenger out of one, and finding the seats that
//! a passenger holds.

use vstd::prelude::*;
use crate::entities::entity::{row_view, rows_occupied, seats_view};
use crate::entities::user::{User, UserView};

verus! {

/// The test that a passenger is another one than `user_id`.
pub open spec fn is_other_than(user_id: Seq<char>) -> spec_fn(UserView) -> bool {
    |user: UserView| user.user_id != user_id
}

/// The test that a row holds somebody.
pub open spec fn is_occupied() -> spec_fn(Seq<UserView>) -> bool {
    |row: Seq<UserView>| row.len() > 0
}

/// The row without every seat that `user_id` holds.
pub open spec fn row_without(row: Seq<UserView>, user_id: Seq<char>) -> Seq<UserView> {
    row.filter(is_other_than(user_id))
}

/// The grid without every seat that `user_id` holds, and without the rows
/// that are empty then.
pub open spec fn seats_without(seats: Seq<Seq<UserView>>, user_id: Seq<char>) -> Seq<
    Seq<UserView>,
> {
    seats.map_values(|row: Seq<UserView>| row_without(row, user_id)).filter(is_occupied())
}

/// `user_id` holds a seat of the row.
pub open spec fn in_row(row: Seq<UserView>, user_id: Seq<char>) -> bool {
    exists|seat: int| 0 <= seat < row.len() && (#[trigger] row[seat]).user_id == user_id
}

/// `user_id` holds a seat of the grid.
pub open spec fn seated(seats: Seq<Seq<UserView>>, user_id: Seq<char>) -> bool {
    exists|row: int| 0 <= row < seats.len() && in_row(#[trigger] seats[row], user_id)
}

/// Taking a passenger out of a row shortens it exactly where the passenger
/// holds a seat of it.
pub proof fn lemma_row_without_len(row: Seq<UserView>, user_id: Seq<char>)
    ensures
        row_without(row, user_id).len() <= row.len(),
        row_without(row, user_id).len() < row.len() <==> in_row(row, user_id),
    decreases row.len(),
{
    reveal(Seq::filter);
    if row.len() > 0 {
        let front = row.drop_last();
        lemma_row_without_len(front, user_id);
        if in_row(front, user_id) {
            let seat = choose|seat: int|
                0 <= seat < front.len() && (#[trigger] front[seat]).user_id == user_id;
            assert(row[seat].user_id == user_id);
        }
        if in_row(row, user_id) && row.last().user_id != user_id {
            let seat = choose|seat: int|
                0 <= seat < row.len() && (#[trigger] row[seat]).user_id == user_id;
            assert(front[seat].user_id == user_id);
        }
        if row.last().user_id == user_id {
            assert(row[row.len() - 1].user_id == user_id);
        }
    }
}

/// After a passenger was taken out of a grid, the passenger holds no seat of
/// it and no row of it is empty.
pub proof fn lemma_seats_without(seats: Seq<Seq<UserView>>, user_id: Seq<char>)
    ensures
        !seated(seats_without(seats, user_id), user_id),
        rows_occupied(seats_without(seats, user_id)),
{
    let shortened = seats.map_values(|row: Seq<UserView>| row_without(row, user_id));
    let kept = seats_without(seats, user_id);
    assert forall|row: int| 0 <= row < kept.len() implies (#[trigger] kept[row]).len() > 0 && !in_row(
        kept[row],
        user_id,
    ) by {
        shortened.lemma_filter_pred(is_occupied(), row);
        assert(kept.contains(kept[row]));
        shortened.lemma_filter_contains_rev(is_occupied(), kept[row]);
        let from = choose|from: int| 0 <= from < shortened.len() && shortened[from] == kept[row];
        assert(kept[row] == row_without(seats[from], user_id));
        if in_row(kept[row], user_id) {
            let seat = choose|seat: int|
                0 <= seat < kept[row].len() && (#[trigger] kept[row][seat]).user_id == user_id;
            seats[from].lemma_filter_pred(is_other_than(user_id), seat);
        }
    }
}

/// The row without every seat that `user_id` holds.
pub fn remove_from_row(row: &Vec<User>, user_id: &String) -> (kept: Vec<User>)
    ensures
        row_view(kept@) == row_without(row_view(row@), user_id@),
{
    let mut kept: Vec<User> = Vec::new();
    let mut at: usize = 0;
    proof {
        reveal(Seq::filter);
        assert(row_view(row@).take(0) =~= Seq::empty());
    }
    while at < row.len()
        invariant
            at <= row.len(),
            row_view(kept@) == row_without(row_view(row@).take(at as int), user_id@),
        decreases row.len() - at,
    {
        proof {
            let seen = row_view(row@).take(at as int);
            assert(row_view(row@).take(at + 1) =~= seen.push(row@[at as int]@));
            seen.lemma_filter_push(row@[at as int]@, is_other_than(user_id@));
        }
        if row[at].user_id != *user_id {
            let ghost before = kept@;
            kept.push(row[at].clone());
            assert(row_view(kept@) =~= row_view(before).push(row@[at as int]@));
        }
        at += 1;
    }
    assert(row_view(row@).take(at as int) =~= row_view(row@));
    kept
}

/// The grid without every seat that `user_id` holds and without the rows
/// that are empty then, and whether `user_id` held a seat.
pub fn remove_from_seats(seats: &Vec<Vec<User>>, user_id: &String) -> (removal: (
    Vec<Vec<User>>,
    bool,
))
    ensures
        seats_view(removal.0@) == seats_without(seats_view(seats@), user_id@),
        removal.1 == seated(seats_view(seats@), user_id@),
{
    let mut kept: Vec<Vec<User>> = Vec::new();
    let mut removed = false;
    let mut at: usize = 0;
    let ghost grid = seats_view(seats@);
    let ghost shorten = |row: Seq<UserView>| row_without(row, user_id@);
    proof {
        reveal(Seq::filter);
        assert(grid.take(0).map_values(shorten) =~= Seq::empty());
    }
    while at < seats.len()
        invariant
            at <= seats.len(),
            grid == seats_view(seats@),
            shorten == |row: Seq<UserView>| row_without(row, user_id@),
            seats_view(kept@) == seats_without(grid.take(at as int), user_id@),
            removed == seated(grid.take(at as int), user_id@),
        decreases seats.len() - at,
    {
        let row = remove_from_row(&seats[at], user_id);
        proof {
            let seen = grid.take(at as int);
            let next = grid.take(at + 1);
            assert(next =~= seen.push(grid[at as int]));
            assert(next.map_values(shorten) =~= seen.map_values(shorten).push(
                row_without(grid[at as int], user_id@),
            ));
            seen.map_values(shorten).lemma_filter_push(
                row_without(grid[at as int], user_id@),
                is_occupied(),
            );
            lemma_row_without_len(grid[at as int], user_id@);
            if seated(seen, user_id@) {
                let held = choose|held: int|
                    0 <= held < seen.len() && in_row(#[trigger] seen[held], user_id@);
                assert(in_row(next[held], user_id@));
            }
            if in_row(grid[at as int], user_id@) {
                assert(in_row(next[at as int], user_id@));
            }
            if seated(next, user_id@) && !in_row(grid[at as int], user_id@) {
                let held = choose|held: int|
                    0 <= held < next.len() && in_row(#[trigger] next[held], user_id@);
                assert(in_row(seen[held], user_id@));
            }
        }
        if row.len() < seats[at].len() {
            removed = true;
        }
        if row.len() > 0 {
            let ghost before = kept@;
            kept.push(row);
            assert(seats_view(kept@) =~= seats_view(before).push(
                row_without(grid[at as int], user_id@),
            ));
        }
        at += 1;
    }
    assert(grid.take(at as int) =~= grid);
    (kept, removed)
}

/// What a booked seat is: its place in the grid and the passenger on it.
pub struct SeatView {
    pub row: int,
    pub col: int,
    pub user: UserView,
}

/// A booked seat: its row and column in the grid, counted from 0, and the
/// passenger on it.
#[derive(Debug, PartialEq, Eq)]
pub struct Seat {
    pub row: usize,
    pub col: usize,
    pub user: User,
}

impl View for Seat {
    type V = SeatView;

    open spec fn view(&self) -> SeatView {
        SeatView { row: self.row as int, col: self.col as int, user: self.user@ }
    }
}

/// The seats of a list, one for one.
pub open spec fn seat_views(seats: Seq<Seat>) -> Seq<SeatView> {
    seats.map_values(|seat: Seat| seat@)
}

/// The seats that `user_id` holds in the row numbered `row`, from the first
/// column to the last.
pub open spec fn seats_in_row(users: Seq<UserView>, row: int, user_id: Seq<char>) -> Seq<
    SeatView,
>
    decreases users.len(),
{
    if users.len() == 0 {
        Seq::empty()
    } else {
        let before = seats_in_row(users.drop_last(), row, user_id);
        if users.last().user_id == user_id {
            before.push(SeatView { row, col: users.len() - 1, user: users.last() })
        } else {
            before
        }
    }
}

/// The seats that `user_id` holds in the grid, from the first row to the
/// last, and within a row from the first column to the last.
pub open spec fn seats_of(seats: Seq<Seq<UserView>>, user_id: Seq<char>) -> Seq<SeatView>
    decreases seats.len(),
{
    if seats.len() == 0 {
        Seq::empty()
    } else {
        seats_of(seats.drop_last(), user_id) + seats_in_row(
            seats.last(),
            seats.len() - 1,
            user_id,
        )
    }
}

/// `seat` is a seat of the grid that `user_id` holds.
pub open spec fn is_seat_of(seats: Seq<Seq<UserView>>, user_id: Seq<char>, seat: SeatView) -> bool {
    &&& 0 <= seat.row < seats.len()
    &&& 0 <= seat.col < seats[seat.row].len()
    &&& seats[seat.row][seat.col] == seat.user
    &&& seat.user.user_id == user_id
}

/// `first` comes before `second` in reading order.
pub open spec fn reads_before(first: SeatView, second: SeatView) -> bool {
    first.row < second.row || (first.row == second.row && first.col < second.col)
}

/// What [`seats_in_row`] lists: seats of this row that `user_id` holds, each
/// of them, from left to right.
pub proof fn lemma_seats_in_row(users: Seq<UserView>, row: int, user_id: Seq<char>)
    ensures
        forall|at: int|
            0 <= at < seats_in_row(users, row, user_id).len() ==> {
                let seat = #[trigger] seats_in_row(users, row, user_id)[at];
                &&& seat.row == row
                &&& 0 <= seat.col < users.len()
                &&& users[seat.col] == seat.user
                &&& seat.user.user_id == user_id
            },
        forall|col: int|
            0 <= col < users.len() && (#[trigger] users[col]).user_id == user_id ==> seats_in_row(
                users,
                row,
                user_id,
            ).contains(SeatView { row, col, user: users[col] }),
        forall|first: int, second: int|
            0 <= first < second < seats_in_row(users, row, user_id).len() ==> reads_before(
                #[trigger] seats_in_row(users, row, user_id)[first],
                #[trigger] seats_in_row(users, row, user_id)[second],
            ),
    decreases users.len(),
{
    if users.len() > 0 {
        let front = users.drop_last();
        let before = seats_in_row(front, row, user_id);
        let all = seats_in_row(users, row, user_id);
        lemma_seats_in_row(front, row, user_id);
        assert forall|col: int|
            0 <= col < users.len() && (#[trigger] users[col]).user_id == user_id implies all.contains(
            SeatView { row, col, user: users[col] },
        ) by {
            if col < front.len() {
                assert(front[col].user_id == user_id);
                let seat = SeatView { row, col, user: front[col] };
                let at = choose|at: int| 0 <= at < before.len() && before[at] == seat;
                assert(all[at] == seat);
            } else {
                assert(all[all.len() - 1] == SeatView { row, col, user: users[col] });
            }
        }
        assert forall|first: int, second: int| 0 <= first < second < all.len() implies reads_before(
            #[trigger] all[first],
            #[trigger] all[second],
        ) by {
            if second < before.len() {
                assert(reads_before(before[first], before[second]));
            } else {
                assert(all[first] == before[first]);
            }
        }
    }
}

/// What [`seats_of`] lists: seats of the grid that `user_id` holds, each of
/// them, in reading order. The list is empty exactly where the passenger
/// holds no seat.
pub proof fn lemma_seats_of(seats: Seq<Seq<UserView>>, user_id: Seq<char>)
    ensures
        forall|at: int|
            0 <= at < seats_of(seats, user_id).len() ==> is_seat_of(
                seats,
                user_id,
                #[trigger] seats_of(seats, user_id)[at],
            ),
        forall|row: int, col: int|
            0 <= row < seats.len() && 0 <= col < seats[row].len() && (
            #[trigger] seats[row][col]).user_id == user_id ==> seats_of(seats, user_id).contains(
                SeatView { row, col, user: seats[row][col] },
            ),
        forall|first: int, second: int|
            0 <= first < second < seats_of(seats, user_id).len() ==> reads_before(
                #[trigger] seats_of(seats, user_id)[first],
                #[trigger] seats_of(seats, user_id)[second],
            ),
        seats_of(seats, user_id).len() == 0 <==> !seated(seats, user_id),
    decreases seats.len(),
{
    let all = seats_of(seats, user_id);
    if seats.len() > 0 {
        let above = seats.drop_last();
        let last = seats.len() - 1;
        let head = seats_of(above, user_id);
        let tail = seats_in_row(seats.last(), last, user_id);
        lemma_seats_of(above, user_id);
        lemma_seats_in_row(seats.last(), last, user_id);
        assert forall|at: int| 0 <= at < all.len() implies is_seat_of(
            seats,
            user_id,
            #[trigger] all[at],
        ) by {
            if at < head.len() {
                assert(is_seat_of(above, user_id, head[at]));
            } else {
                assert(all[at] == tail[at - head.len()]);
            }
        }
        assert forall|row: int, col: int|
            0 <= row < seats.len() && 0 <= col < seats[row].len() && (
            #[trigger] seats[row][col]).user_id == user_id implies all.contains(
            SeatView { row, col, user: seats[row][col] },
        ) by {
            let seat = SeatView { row, col, user: seats[row][col] };
            if row < last {
                assert(above[row][col].user_id == user_id);
                let at = choose|at: int| 0 <= at < head.len() && head[at] == seat;
                assert(all[at] == seat);
            } else {
                assert(seats.last()[col].user_id == user_id);
                let at = choose|at: int| 0 <= at < tail.len() && tail[at] == seat;
                assert(all[head.len() + at] == seat);
            }
        }
        assert forall|first: int, second: int| 0 <= first < second < all.len() implies reads_before(
            #[trigger] all[first],
            #[trigger] all[second],
        ) by {
            if second < head.len() {
                assert(reads_before(head[first], head[second]));
            } else if first < head.len() {
                assert(is_seat_of(above, user_id, head[first]));
                assert(all[second] == tail[second - head.len()]);
            } else {
                assert(all[first] == tail[first - head.len()]);
                assert(all[second] == tail[second - head.len()]);
            }
        }
    }
    if seated(seats, user_id) {
        let row = choose|row: int| 0 <= row < seats.len() && in_row(#[trigger] seats[row], user_id);
        let col = choose|col: int|
            0 <= col < seats[row].len() && (#[trigger] seats[row][col]).user_id == user_id;
        assert(all.contains(SeatView { row, col, user: seats[row][col] }));
    }
    if all.len() > 0 {
        assert(is_seat_of(seats, user_id, all[0]));
        assert(in_row(seats[all[0].row], user_id));
    }
}

/// The seats that `user_id` holds in the grid, in reading order.
pub fn find_seats(seats: &Vec<Vec<User>>, user_id: &String) -> (found: Vec<Seat>)
    ensures
        seat_views(found@) == seats_of(seats_view(seats@), user_id@),
{
    let mut found: Vec<Seat> = Vec::new();
    let mut row: usize = 0;
    let ghost grid = seats_view(seats@);
    while row < seats.len()
        invariant
            row <= seats.len(),
            grid == seats_view(seats@),
            seat_views(found@) == seats_of(grid.take(row as int), user_id@),
        decreases seats.len() - row,
    {
        let users = &seats[row];
        let ghost above = seat_views(found@);
        let ghost line = grid[row as int];
        let mut col: usize = 0;
        while col < users.len()
            invariant
                col <= users.len(),
                line == row_view(users@),
                seat_views(found@) == above + seats_in_row(
                    line.take(col as int),
                    row as int,
                    user_id@,
                ),
            decreases users.len() - col,
        {
            proof {
                assert(line.take(col + 1).drop_last() =~= line.take(col as int));
            }
            if users[col].user_id == *user_id {
                let ghost before = found@;
                found.push(Seat { row, col, user: users[col].clone() });
                assert(seat_views(found@) =~= seat_views(before).push(
                    SeatView { row: row as int, col: col as int, user: line[col as int] },
                ));
            }
            col += 1;
            assert(seat_views(found@) =~= above + seats_in_row(
                line.take(col as int),
                row as int,
                user_id@,
            ));
        }
        proof {
            assert(line.take(col as int) =~= line);
            assert(grid.take(row + 1).drop_last() =~= grid.take(row as int));
        }
        row += 1;
    }
    assert(grid.take(row as int) =~= grid);
    found
}

} // verus!
