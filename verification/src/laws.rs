//! What holds of the state machine, whatever the state.

use vstd::prelude::*;
use crate::action::{ActionView, EffectView};
use crate::app::AppView;
use crate::cache::page_at;
use crate::data::{Post, PostComment};
use crate::handle_events::{Command, is_forced_quit, key_binding};
use crate::handle_posts::{has_post, lemma_position_of, with_read};
use crate::input::{KeyCode, KeyEvent};
use crate::modes::STARTING_PAGE;
use crate::navigate::row_offset;

verus! {

/// Marking a post read that is read already changes nothing: no second
/// write is asked for. Marking an unread post asks for exactly one write,
/// and the post is read at once.
pub proof fn lemma_mark_read_once(v: AppView, index: int)
    requires
        0 <= index < v.posts().len(),
    ensures
        v.posts()[index].is_read ==> v.mark_post_read(index) == v,
        !v.posts()[index].is_read ==> v.mark_post_read(index).outbox == v.outbox.push(
            EffectView::MarkPostRead(v.posts()[index].short_id@),
        ),
        v.mark_post_read(index).posts()[index].is_read,
        v.mark_post_read(index).mark_post_read(index) == v.mark_post_read(index),
{
}

/// Marking a post unread always asks for a write, also where the post is
/// unread already, and the post is unread at once.
pub proof fn lemma_mark_unread_always_writes(v: AppView, index: int)
    requires
        0 <= index < v.posts().len(),
    ensures
        v.mark_post_unread(index).outbox == v.outbox.push(
            EffectView::MarkPostUnread(v.posts()[index].short_id@),
        ),
        !v.mark_post_unread(index).posts()[index].is_read,
        v.mark_post_unread(index).mark_post_unread(index).outbox == v.outbox.push(
            EffectView::MarkPostUnread(v.posts()[index].short_id@),
        ).push(EffectView::MarkPostUnread(v.posts()[index].short_id@)),
{
}

/// Opening a post marks it read, whatever it points to and whatever the
/// settings say.
pub proof fn lemma_open_marks_read(v: AppView, index: int)
    requires
        0 <= index < v.posts().len(),
    ensures
        v.open_post(index).posts().len() == v.posts().len(),
        v.open_post(index).posts()[index].is_read,
        v.open_post(index).outbox.len() >= 1,
        v.open_post(index).outbox[v.outbox.len() as int] == EffectView::Open(
            if v.posts()[index].url@.len() == 0 {
                v.posts()[index].comments_url@
            } else {
                v.posts()[index].url@
            },
        ),
{
}

/// The post cursor wraps: from the last row the next is the first, from the
/// first row the previous is the last. After a move the cursor is on a post,
/// and the scroll bar is at its row.
pub proof fn lemma_post_rows_wrap(v: AppView)
    requires
        1 <= v.posts().len() <= usize::MAX,
        !v.show_details_popup,
    ensures
        (v.posts_list_state.selected is Some && v.posts_list_state.selected->Some_0 + 1
            == v.posts().len()) ==> v.next_row().posts_list_state.selected == Some(0usize),
        v.posts_list_state.selected == Some(0usize) ==> v.previous_row().selected_post() == Some(
            v.posts().len() - 1,
        ),
        v.next_row().selected_post() is Some,
        v.previous_row().selected_post() is Some,
        v.next_row().posts_scroll_position == row_offset(v.next_row().selected_post()->Some_0),
        v.previous_row().posts_scroll_position == row_offset(
            v.previous_row().selected_post()->Some_0,
        ),
{
}

/// The comment cursor wraps in the same way while the details popup is
/// open, and stays on a comment where there is one.
pub proof fn lemma_comment_rows_wrap(v: AppView)
    requires
        v.posts().len() >= 1,
        v.show_details_popup,
        1 <= v.comment_count() <= usize::MAX,
    ensures
        (v.comments_list_state.selected is Some && v.comments_list_state.selected->Some_0 + 1
            == v.comment_count()) ==> v.next_row().comments_list_state.selected == Some(0usize),
        v.comments_list_state.selected == Some(0usize)
            ==> v.previous_row().comments_list_state.selected->Some_0 + 1 == v.comment_count(),
        v.next_row().comments_list_state.selected is Some,
        v.previous_row().comments_list_state.selected is Some,
        v.next_row().comments_list_state.selected->Some_0 < v.comment_count(),
        v.previous_row().comments_list_state.selected->Some_0 < v.comment_count(),
        v.next_row().posts_list_state == v.posts_list_state,
        v.previous_row().posts_list_state == v.posts_list_state,
{
}

/// The jumps to the first and to the last row do not wrap: they land on the
/// first and on the last post.
pub proof fn lemma_row_jumps(v: AppView)
    requires
        1 <= v.posts().len() <= usize::MAX,
        !v.show_details_popup,
    ensures
        v.first_row().posts_list_state.selected == Some(0usize),
        v.first_row().posts_scroll_position == 0,
        v.last_row().selected_post() == Some(v.posts().len() - 1),
        v.last_row().last_row() == v.last_row(),
        v.first_row().first_row() == v.first_row(),
{
}

/// A listing that arrives is on screen and no longer expected; where it has
/// posts and no popup is in the way, the cursor is on the first row.
pub proof fn lemma_listing_loaded(v: AppView, posts: Seq<Post>)
    ensures
        v.on_action(ActionView::LoadPosts(posts)).posts() == posts,
        !v.on_action(ActionView::LoadPosts(posts)).is_loading,
        v.on_action(ActionView::LoadPosts(posts)).outbox == v.outbox,
        (posts.len() > 0 && !v.show_details_popup) ==> v.on_action(
            ActionView::LoadPosts(posts),
        ).posts_list_state.selected == Some(0usize),
{
}

/// Going to the next page where that page is not cached: the listing of the
/// next page is asked for and expected, nothing is on screen, the posts that
/// were on screen are cached under the page that was left, and the cursor
/// stays where it was until the listing arrives.
pub proof fn lemma_next_page_miss(v: AppView)
    requires
        v.wf(),
        v.posts().len() > 0,
        v.mode.page() < u8::MAX,
        page_at(v.cache.pages, v.page_index() + 1).len() == 0,
    ensures
        v.next_page().mode == v.mode.after_next_page(),
        v.next_page().is_loading,
        v.next_page().outbox == v.outbox.push(EffectView::FetchPosts(v.mode.after_next_page())),
        v.next_page().posts().len() == 0,
        v.next_page().posts_list_state == v.posts_list_state,
        page_at(v.next_page().cache.pages, v.page_index()) == v.posts(),
        v.next_page().wf(),
{
    crate::cache::lemma_load_unseen_page(v.cache, v.page_index(), v.page_index() + 1);
}

/// Going to the next page where that page is cached: its posts are on
/// screen, nothing is asked for, and the cursor is on the first row.
pub proof fn lemma_next_page_hit(v: AppView)
    requires
        v.wf(),
        v.posts().len() > 0,
        v.mode.page() < u8::MAX,
        page_at(v.cache.pages, v.page_index() + 1).len() > 0,
    ensures
        v.next_page().posts() == page_at(v.cache.pages, v.page_index() + 1),
        v.next_page().outbox == v.outbox,
        v.next_page().is_loading == v.is_loading,
        !v.show_details_popup ==> v.next_page().posts_list_state.selected == Some(0usize),
        v.next_page().wf(),
{
}

/// At the starting page, going to the previous page changes nothing: no
/// fetch is asked for.
pub proof fn lemma_previous_page_at_start(v: AppView)
    requires
        v.mode.page() <= STARTING_PAGE,
    ensures
        v.previous_page() == v,
{
}

/// A thread that arrives for a post that is not on screen is dropped:
/// nothing changes.
pub proof fn lemma_stale_details_dropped(v: AppView, id: Seq<char>, comments: Vec<PostComment>)
    requires
        !has_post(v.posts(), id),
    ensures
        v.on_action(ActionView::LoadPostDetails(id, comments)) == v,
{
    lemma_position_of(v.posts(), id);
}

/// A thread that arrives for a post on screen is attached to it, and no
/// thread is expected any more; nothing else on screen changes.
pub proof fn lemma_details_attached(v: AppView, id: Seq<char>, comments: Vec<PostComment>)
    requires
        has_post(v.posts(), id),
    ensures
        !v.on_action(ActionView::LoadPostDetails(id, comments)).is_loading_comments,
        v.on_action(ActionView::LoadPostDetails(id, comments)).posts().len() == v.posts().len(),
        exists|i: int|
            0 <= i < v.posts().len() && (#[trigger] v.posts()[i]).short_id@ == id && v.on_action(
                ActionView::LoadPostDetails(id, comments),
            ).posts()[i].comments == comments,
{
    lemma_position_of(v.posts(), id);
    let at = crate::handle_posts::position_of(v.posts(), id);
    assert(v.posts()[at].short_id@ == id);
}

/// The forced quit stops the run loop with exit code 1. The plain quit
/// stops it and leaves the exit code as it is.
pub proof fn lemma_quit(v: AppView, ev: KeyEvent)
    ensures
        is_forced_quit(ev) ==> v.on_key(ev).exit_code == 1 && !v.on_key(ev).is_running,
        (ev.code == KeyCode::Char('q') && !ev.control) ==> v.on_key(ev).exit_code == v.exit_code
            && !v.on_key(ev).is_running,
{
    lemma_command_frame(v, key_binding(ev.code));
    lemma_command_frame(v.force_quit(), key_binding(ev.code));
}

/// No command touches the exit code or the settings, and none but the quit
/// stops the run loop.
pub proof fn lemma_command_frame(v: AppView, command: Command)
    ensures
        v.run_command(command).exit_code == v.exit_code,
        v.run_command(command).config == v.config,
        command != Command::Quit ==> v.run_command(command).is_running == v.is_running,
{
    match command {
        Command::NextMode => {
            assert(v.next_mode().exit_code == v.exit_code);
        },
        Command::PrevMode => {
            assert(v.prev_mode().exit_code == v.exit_code);
        },
        Command::NextPage => {
            assert(v.next_page().exit_code == v.exit_code);
        },
        Command::PreviousPage => {
            assert(v.previous_page().exit_code == v.exit_code);
        },
        _ => {},
    }
}

/// No key but the forced quit touches the exit code.
pub proof fn lemma_exit_code_kept(v: AppView, ev: KeyEvent)
    requires
        !is_forced_quit(ev),
    ensures
        v.on_key(ev).exit_code == v.exit_code,
{
    lemma_command_frame(v, key_binding(ev.code));
}

/// Every key but the one that toggles the keybinds popup closes that popup;
/// that key opens it where it is closed and closes it where it is open.
pub proof fn lemma_keybinds_popup(v: AppView, ev: KeyEvent)
    ensures
        key_binding(ev.code) != Command::ToggleKeybinds ==> !v.on_key(ev).show_keybinds_popup,
        key_binding(ev.code) == Command::ToggleKeybinds ==> v.on_key(ev).show_keybinds_popup
            == !v.show_keybinds_popup,
{
}

/// The details popup asks for the thread when it opens and not when it
/// closes; either way the comment cursor goes to the first row.
pub proof fn lemma_details_fetched_on_open(v: AppView, index: usize)
    requires
        index < v.posts().len(),
    ensures
        v.toggle_details(Some(index)).show_details_popup == !v.show_details_popup,
        v.toggle_details(Some(index)).comments_list_state.selected == Some(0usize),
        v.show_details_popup ==> v.toggle_details(Some(index)).outbox == v.outbox,
        !v.show_details_popup ==> v.toggle_details(Some(index)).is_loading_comments
            && v.toggle_details(Some(index)).outbox.last() == EffectView::FetchPostDetails(
            v.posts()[index as int].short_id_url@,
        ),
{
}

/// A resize moves the cursor only where the terminal grew in height.
pub proof fn lemma_resize(v: AppView, width: u16, height: u16)
    ensures
        height <= v.prev_size.1 ==> v.on_action(ActionView::Resize(width, height)) == v,
        height > v.prev_size.1 ==> v.on_action(ActionView::Resize(width, height)) == v.first_row(),
{
}

/// The state in which the application starts is well formed.
pub proof fn lemma_initial_wf(config: crate::app::CoreConfig)
    requires
        config.default_mode.page() == STARTING_PAGE,
    ensures
        AppView::initial(config).wf(),
{
}

/// Moving a cursor, and anything done with a post, leaves the mode and the
/// cached pages alone.
pub proof fn lemma_pages_kept(v: AppView, index: int)
    ensures
        v.first_row().mode == v.mode && v.first_row().cache.pages == v.cache.pages,
        v.last_row().mode == v.mode && v.last_row().cache.pages == v.cache.pages,
        v.next_row().mode == v.mode && v.next_row().cache.pages == v.cache.pages,
        v.previous_row().mode == v.mode && v.previous_row().cache.pages == v.cache.pages,
        v.load_posts().mode == v.mode && v.load_posts().cache.pages == v.cache.pages,
        v.mark_post_read(index).mode == v.mode && v.mark_post_read(index).cache.pages
            == v.cache.pages,
        v.mark_post_unread(index).mode == v.mode && v.mark_post_unread(index).cache.pages
            == v.cache.pages,
        v.open_post_comments(index).mode == v.mode && v.open_post_comments(index).cache.pages
            == v.cache.pages,
        v.open_post(index).mode == v.mode && v.open_post(index).cache.pages == v.cache.pages,
        v.open_comment().mode == v.mode && v.open_comment().cache.pages == v.cache.pages,
        v.load_post_comments(index).mode == v.mode && v.load_post_comments(index).cache.pages
            == v.cache.pages,
{
}

/// Opening or closing the details popup, and fetching again, leave the mode
/// and the cached pages alone.
pub proof fn lemma_pages_kept_by_popup(v: AppView, index: Option<usize>)
    ensures
        v.toggle_details(index).mode == v.mode && v.toggle_details(index).cache.pages
            == v.cache.pages,
        v.refresh().mode == v.mode && v.refresh().cache.pages == v.cache.pages,
{
    match index {
        Some(i) => {
            lemma_pages_kept(v, i as int);
        },
        None => {},
    }
    match v.posts_list_state.selected {
        Some(i) => {
            lemma_pages_kept(v, i as int);
        },
        None => {},
    }
}

/// A change of page leaves a well-formed state well formed.
pub proof fn lemma_page_change_keeps_wf(v: AppView)
    requires
        v.wf(),
    ensures
        v.next_page().wf(),
        v.previous_page().wf(),
{
    if v.posts().len() > 0 && v.mode.page() < u8::MAX {
        let moved = AppView { mode: v.mode.after_next_page(), ..v };
        let turned = AppView {
            cache: moved.cache.after_load_page(v.page_index(), moved.page_index()),
            ..moved
        };
        assert(turned.wf());
        lemma_pages_kept(turned, 0);
        lemma_pages_kept(turned.load_posts(), 0);
    }
    if v.mode.page() > STARTING_PAGE {
        let moved = AppView { mode: v.mode.after_prev_page(), ..v };
        let turned = AppView {
            cache: moved.cache.after_load_page(v.page_index(), moved.page_index()),
            ..moved
        };
        assert(turned.wf());
        lemma_pages_kept(turned, 0);
        lemma_pages_kept(turned.load_posts(), 0);
    }
}

/// A change of mode leaves a well-formed state well formed.
pub proof fn lemma_mode_change_keeps_wf(v: AppView)
    requires
        v.wf(),
    ensures
        v.next_mode().wf(),
        v.prev_mode().wf(),
{
    lemma_pages_kept(v, 0);
    lemma_switch_keeps_wf(v, v.mode.after_next_mode());
    lemma_switch_keeps_wf(v, v.mode.after_prev_mode());
}

proof fn lemma_switch_keeps_wf(v: AppView, to: crate::modes::Mode)
    requires
        v.wf(),
        to.page() == STARTING_PAGE,
    ensures
        v.switch_mode(to).wf(),
{
    lemma_pages_kept(v, 0);
    let reset = v.first_row();
    let stored = reset.cache.after_store_mode(v.mode.kind().name(), v.page_index());
    let loaded = stored.after_load_mode(to.kind().name(), 0);
    let switched = AppView { mode: to, cache: loaded, ..reset };
    assert(stored.posts.len() == 0);
    assert(switched.wf());
    lemma_pages_kept(switched, 0);
}

/// Every command leaves a well-formed state well formed: the mode stays at
/// a page from the starting page on, and the slot of its page stays empty
/// while the posts of the page are on screen.
pub proof fn lemma_command_keeps_wf(v: AppView, command: Command)
    requires
        v.wf(),
    ensures
        v.run_command(command).wf(),
{
    lemma_page_change_keeps_wf(v);
    lemma_mode_change_keeps_wf(v);
    lemma_pages_kept_by_popup(v, v.posts_list_state.selected);
    match v.posts_list_state.selected {
        Some(i) => {
            lemma_pages_kept(v, i as int);
        },
        None => {
            lemma_pages_kept(v, 0);
        },
    }
    match command {
        Command::Shortcut(c) => {
            match crate::handle_events::shortcut_row(c) {
                Some(row) => {
                    lemma_pages_kept(v, row as int);
                },
                None => {},
            }
        },
        _ => {},
    }
}

/// Every event leaves a well-formed state well formed.
pub proof fn lemma_action_keeps_wf(v: AppView, action: ActionView)
    requires
        v.wf(),
    ensures
        v.on_action(action).wf(),
{
    match action {
        ActionView::Key(ev) => {
            lemma_command_keeps_wf(v, key_binding(ev.code));
            lemma_command_keeps_wf(v.force_quit(), key_binding(ev.code));
        },
        ActionView::Mouse(ev) => {
            lemma_page_change_keeps_wf(v);
            lemma_pages_kept(v, 0);
            match v.hovered(ev.row) {
                Some(i) => {
                    lemma_pages_kept(v, i as int);
                    lemma_pages_kept_by_popup(v, Some(i));
                },
                None => {},
            }
        },
        ActionView::LoadPosts(posts) => {
            lemma_pages_kept(
                AppView { is_loading: false, ..v.with_posts(posts) },
                0,
            );
        },
        ActionView::LoadPostDetails(id, comments) => {},
        ActionView::Resize(_, _) => {
            lemma_pages_kept(v, 0);
        },
    }
}

} // verus!
